//! Frame configuration: baud rate, word length, parity and stop bits,
//! together with the encodings the peripheral's registers use for them.

use vstd::prelude::*;

verus! {

/// Number of data bits in one frame.
#[derive(PartialEq, Eq, Structural, PartialOrd, Clone, Copy, Debug)]
pub enum WordLength {
    DataBits7,
    DataBits8,
    DataBits9,
}

/// Parity mode of one frame.
#[derive(PartialEq, Eq, Structural, PartialOrd, Clone, Copy, Debug)]
pub enum Parity {
    ParityNone,
    ParityEven,
    ParityOdd,
}

/// Number of stop bits in one frame.
#[derive(PartialEq, Eq, Structural, Clone, Copy, Debug)]
pub enum StopBits {
    /// 1 stop bit
    STOP1,
    /// 0.5 stop bits
    STOP0P5,
    /// 2 stop bits
    STOP2,
    /// 1.5 stop bits
    STOP1P5,
}

/// Frame configuration handed to the peripheral binder.  Built by chained
/// setters; each setter fully overwrites one field, so no invalid
/// combination is representable.
#[derive(PartialEq, Eq, Structural, Clone, Copy, Debug)]
pub struct Config {
    pub baudrate: u32,
    pub wordlength: WordLength,
    pub parity: Parity,
    pub stopbits: StopBits,
}

impl Config {
    /// Replaces the baud rate (bits per second).
    pub fn baudrate(self, baudrate: u32) -> (r: Self)
        ensures
            r.baudrate == baudrate,
            r.wordlength == self.wordlength,
            r.parity == self.parity,
            r.stopbits == self.stopbits,
    {
        Config { baudrate, ..self }
    }

    /// Selects no parity bit.
    pub fn parity_none(self) -> (r: Self)
        ensures
            r.parity == Parity::ParityNone,
            r.baudrate == self.baudrate,
            r.wordlength == self.wordlength,
            r.stopbits == self.stopbits,
    {
        Config { parity: Parity::ParityNone, ..self }
    }

    /// Selects even parity.
    pub fn parity_even(self) -> (r: Self)
        ensures
            r.parity == Parity::ParityEven,
            r.baudrate == self.baudrate,
            r.wordlength == self.wordlength,
            r.stopbits == self.stopbits,
    {
        Config { parity: Parity::ParityEven, ..self }
    }

    /// Selects odd parity.
    pub fn parity_odd(self) -> (r: Self)
        ensures
            r.parity == Parity::ParityOdd,
            r.baudrate == self.baudrate,
            r.wordlength == self.wordlength,
            r.stopbits == self.stopbits,
    {
        Config { parity: Parity::ParityOdd, ..self }
    }

    /// Selects 8 data bits per frame.
    pub fn wordlength_8(self) -> (r: Self)
        ensures
            r.wordlength == WordLength::DataBits8,
            r.baudrate == self.baudrate,
            r.parity == self.parity,
            r.stopbits == self.stopbits,
    {
        Config { wordlength: WordLength::DataBits8, ..self }
    }

    /// Selects 9 data bits per frame.
    pub fn wordlength_9(self) -> (r: Self)
        ensures
            r.wordlength == WordLength::DataBits9,
            r.baudrate == self.baudrate,
            r.parity == self.parity,
            r.stopbits == self.stopbits,
    {
        Config { wordlength: WordLength::DataBits9, ..self }
    }

    /// Replaces the stop-bit selection.
    pub fn stopbits(self, stopbits: StopBits) -> (r: Self)
        ensures
            r.stopbits == stopbits,
            r.baudrate == self.baudrate,
            r.wordlength == self.wordlength,
            r.parity == self.parity,
    {
        Config { stopbits, ..self }
    }
}

impl Default for Config {
    /// 19200 bps, 8 data bits, no parity, 1 stop bit.
    fn default() -> (r: Config)
        ensures
            r.baudrate == 19200,
            r.wordlength == WordLength::DataBits8,
            r.parity == Parity::ParityNone,
            r.stopbits == StopBits::STOP1,
    {
        Config {
            baudrate: 19200,
            wordlength: WordLength::DataBits8,
            parity: Parity::ParityNone,
            stopbits: StopBits::STOP1,
        }
    }
}

/// Value of the register's two-bit stop-bit field for a stop-bit selection.
pub open spec fn spec_encode_stop_bits(s: StopBits) -> u8 {
    match s {
        StopBits::STOP1 => 0b00,
        StopBits::STOP0P5 => 0b01,
        StopBits::STOP2 => 0b10,
        StopBits::STOP1P5 => 0b11,
    }
}

/// Stop-bit selection denoted by a two-bit register field value.
pub open spec fn spec_decode_stop_bits(bits: u8) -> StopBits
    recommends
        bits < 4,
{
    if bits == 0b00 {
        StopBits::STOP1
    } else if bits == 0b01 {
        StopBits::STOP0P5
    } else if bits == 0b10 {
        StopBits::STOP2
    } else {
        StopBits::STOP1P5
    }
}

/// Encodes a stop-bit selection as the register's two-bit field value.
pub fn encode_stop_bits(s: StopBits) -> (r: u8)
    ensures
        r == spec_encode_stop_bits(s),
        r < 4,
{
    match s {
        StopBits::STOP1 => 0b00,
        StopBits::STOP0P5 => 0b01,
        StopBits::STOP2 => 0b10,
        StopBits::STOP1P5 => 0b11,
    }
}

/// Decodes the register's two-bit stop-bit field value.
pub fn decode_stop_bits(bits: u8) -> (r: StopBits)
    requires
        bits < 4,
    ensures
        r == spec_decode_stop_bits(bits),
{
    if bits == 0b00 {
        StopBits::STOP1
    } else if bits == 0b01 {
        StopBits::STOP0P5
    } else if bits == 0b10 {
        StopBits::STOP2
    } else {
        StopBits::STOP1P5
    }
}

/// The stop-bit encoding is a bijection between the four selections and the
/// four two-bit field values: decoding an encoded selection gives the
/// selection back, and encoding a decoded field value gives the field value
/// back.
pub proof fn lemma_stop_bits_round_trip(s: StopBits, bits: u8)
    requires
        bits < 4,
    ensures
        spec_decode_stop_bits(spec_encode_stop_bits(s)) == s,
        spec_encode_stop_bits(spec_decode_stop_bits(bits)) == bits,
{
}

} // verus!

//! The peripheral binder, the duplex handle and its split transmit/receive
//! sub-handles, and the non-blocking byte I/O protocol over the status
//! register.

use vstd::prelude::*;

use crate::config::{spec_encode_stop_bits, Config, Parity, WordLength};
use crate::regs::{
    flag_clear, flag_set, oversampling, spec_clock_enable_bit, spec_clock_in_group2,
    spec_oversampling, ClockControl, PeripheralIdentity, Registers, CR1_IDLEIE, CR1_M0, CR1_M1,
    CR1_PCE, CR1_PS, CR1_RE, CR1_RXNEIE, CR1_TE, CR1_TXEIE, CR1_UE, CR2_STOP_SHIFT_VALUE, ISR_FE,
    ISR_NF, ISR_ORE, ISR_PE, ISR_RXNE, ISR_TC, ISR_TXE,
};

verus! {

/// One receive fault detected by the hardware.  Exactly one is reported per
/// failed read attempt, in the fixed priority order of [`spec_read_result`].
#[derive(PartialEq, Eq, Structural, Clone, Copy, Debug)]
pub enum Error {
    /// Framing error
    Framing,
    /// Noise error
    Noise,
    /// Receive buffer overrun
    Overrun,
    /// Parity check error
    Parity,
}

/// Interrupt event whose enable bit `listen`/`unlisten` toggles.
#[derive(PartialEq, Eq, Structural, Clone, Copy, Debug)]
pub enum Event {
    /// New data has been received
    Rxne,
    /// New data can be sent
    Txe,
    /// Idle line state detected
    Idle,
}

/// Construction-time failure of the peripheral binder: the baud rate is
/// zero, or the divisor does not fit the divisor register.
#[derive(PartialEq, Eq, Structural, Clone, Copy, Debug)]
pub struct InvalidConfig;

/// Outcome of one non-blocking read attempt.
#[derive(PartialEq, Eq, Structural, Clone, Copy, Debug)]
pub enum ReadResult {
    /// A byte was ready and has been taken from the data register.
    Received(u8),
    /// Nothing to report yet; the caller must retry.
    WouldBlock,
    /// A receive fault was detected; its flag has been cleared.
    Failed(Error),
}

/// Outcome of one non-blocking write or flush attempt.
#[derive(PartialEq, Eq, Structural, Clone, Copy, Debug)]
pub enum WriteResult {
    /// The operation completed.
    Done,
    /// The peripheral is not ready yet; the caller must retry.
    WouldBlock,
}

/// The right to perform receive operations on one peripheral instance.  At
/// most one exists per instance at any time; it is only minted by
/// [`Serial::split`] and only consumed by `Rx::with_dma`.
pub struct Rx {
    id: PeripheralIdentity,
}

/// The right to perform transmit operations on one peripheral instance.  At
/// most one exists per instance at any time; it is only minted by
/// [`Serial::split`] and only consumed by `Tx::with_dma`.
pub struct Tx {
    id: PeripheralIdentity,
}

/// The live duplex handle: owns the transmit and the receive right of one
/// instance.  Consumed, irreversibly, by [`Serial::split`].
pub struct Serial {
    tx: Tx,
    rx: Rx,
}

impl View for Rx {
    type V = PeripheralIdentity;

    /// The instance this handle is bound to.
    closed spec fn view(&self) -> PeripheralIdentity {
        self.id
    }
}

impl View for Tx {
    type V = PeripheralIdentity;

    /// The instance this handle is bound to.
    closed spec fn view(&self) -> PeripheralIdentity {
        self.id
    }
}

impl View for Serial {
    type V = (PeripheralIdentity, PeripheralIdentity);

    /// The instances of the owned transmit and receive rights; the binder
    /// only ever creates the two equal.
    closed spec fn view(&self) -> (PeripheralIdentity, PeripheralIdentity) {
        (self.tx.id, self.rx.id)
    }
}

/// Interrupt-enable bit of an event in the control register.
pub open spec fn spec_event_mask(event: Event) -> u32 {
    match event {
        Event::Rxne => CR1_RXNEIE,
        Event::Txe => CR1_TXEIE,
        Event::Idle => CR1_IDLEIE,
    }
}

/// What one read attempt reports for a given status register and receive
/// data register, in the fixed priority order: parity error, framing error,
/// noise error, overrun error, data ready, would-block.
pub open spec fn spec_read_result(isr: u32, rdr: u32) -> ReadResult {
    if flag_set(isr, ISR_PE) {
        ReadResult::Failed(Error::Parity)
    } else if flag_set(isr, ISR_FE) {
        ReadResult::Failed(Error::Framing)
    } else if flag_set(isr, ISR_NF) {
        ReadResult::Failed(Error::Noise)
    } else if flag_set(isr, ISR_ORE) {
        ReadResult::Failed(Error::Overrun)
    } else if flag_set(isr, ISR_RXNE) {
        ReadResult::Received((rdr & 0xFF) as u8)
    } else {
        ReadResult::WouldBlock
    }
}

/// The status register after one read attempt: only the flag of the
/// condition that was reported goes down (the data-ready flag falls with
/// the data-register read); a would-block attempt changes nothing.
pub open spec fn spec_isr_after_read(isr: u32) -> u32 {
    if flag_set(isr, ISR_PE) {
        isr & !ISR_PE
    } else if flag_set(isr, ISR_FE) {
        isr & !ISR_FE
    } else if flag_set(isr, ISR_NF) {
        isr & !ISR_NF
    } else if flag_set(isr, ISR_ORE) {
        isr & !ISR_ORE
    } else if flag_set(isr, ISR_RXNE) {
        isr & !ISR_RXNE
    } else {
        isr
    }
}

impl Rx {
    /// One non-blocking read attempt against this instance's registers.
    /// Decodes the status register in the fixed priority order, clears the
    /// flag of the one condition it reports, and takes the received byte
    /// when data is ready.
    pub fn read(&mut self, regs: &mut Registers) -> (r: ReadResult)
        requires
            old(self)@ == old(regs).id,
        ensures
            final(self)@ == old(self)@,
            r == spec_read_result(old(regs).isr, old(regs).rdr),
            *final(regs) == (Registers {
                isr: spec_isr_after_read(old(regs).isr),
                ..*old(regs)
            }),
    {
        let isr = regs.read_status();
        if isr & ISR_PE != 0 {
            regs.clear_flag(ISR_PE);
            ReadResult::Failed(Error::Parity)
        } else if isr & ISR_FE != 0 {
            regs.clear_flag(ISR_FE);
            ReadResult::Failed(Error::Framing)
        } else if isr & ISR_NF != 0 {
            regs.clear_flag(ISR_NF);
            ReadResult::Failed(Error::Noise)
        } else if isr & ISR_ORE != 0 {
            regs.clear_flag(ISR_ORE);
            ReadResult::Failed(Error::Overrun)
        } else if isr & ISR_RXNE != 0 {
            ReadResult::Received(regs.read_data())
        } else {
            ReadResult::WouldBlock
        }
    }

    /// Starts listening for the receive-data-ready interrupt.
    pub fn listen(&mut self, regs: &mut Registers)
        requires
            old(self)@ == old(regs).id,
        ensures
            final(self)@ == old(self)@,
            *final(regs) == (Registers { cr1: old(regs).cr1 | CR1_RXNEIE, ..*old(regs) }),
    {
        regs.cr1 = regs.cr1 | CR1_RXNEIE;
    }

    /// Stops listening for the receive-data-ready interrupt.
    pub fn unlisten(&mut self, regs: &mut Registers)
        requires
            old(self)@ == old(regs).id,
        ensures
            final(self)@ == old(self)@,
            *final(regs) == (Registers { cr1: old(regs).cr1 & !CR1_RXNEIE, ..*old(regs) }),
    {
        regs.cr1 = regs.cr1 & !CR1_RXNEIE;
    }

    /// The instance this handle is bound to.
    pub fn peripheral(&self) -> (r: PeripheralIdentity)
        ensures
            r == self@,
    {
        self.id
    }
}

impl Tx {
    /// One non-blocking write attempt: when the transmit-ready flag is up,
    /// puts the byte in the data register (the hardware drops the ready and
    /// complete flags while it shifts the byte out); otherwise leaves every
    /// register untouched and signals would-block.
    pub fn write(&mut self, regs: &mut Registers, byte: u8) -> (r: WriteResult)
        requires
            old(self)@ == old(regs).id,
        ensures
            final(self)@ == old(self)@,
            flag_set(old(regs).isr, ISR_TXE) ==> {
                &&& r == WriteResult::Done
                &&& *final(regs) == (Registers {
                    tdr: byte as u32,
                    isr: old(regs).isr & !(ISR_TXE | ISR_TC),
                    ..*old(regs)
                })
            },
            !flag_set(old(regs).isr, ISR_TXE) ==> {
                &&& r == WriteResult::WouldBlock
                &&& *final(regs) == *old(regs)
            },
    {
        let isr = regs.read_status();
        if isr & ISR_TXE != 0 {
            regs.write_data(byte);
            WriteResult::Done
        } else {
            WriteResult::WouldBlock
        }
    }

    /// One non-blocking flush attempt: done exactly when the
    /// transmission-complete flag is up; never changes any register.
    pub fn flush(&mut self, regs: &mut Registers) -> (r: WriteResult)
        requires
            old(self)@ == old(regs).id,
        ensures
            final(self)@ == old(self)@,
            *final(regs) == *old(regs),
            r == WriteResult::Done <==> flag_set(old(regs).isr, ISR_TC),
    {
        let isr = regs.read_status();
        if isr & ISR_TC != 0 {
            WriteResult::Done
        } else {
            WriteResult::WouldBlock
        }
    }

    /// Starts listening for the transmit-ready interrupt.
    pub fn listen(&mut self, regs: &mut Registers)
        requires
            old(self)@ == old(regs).id,
        ensures
            final(self)@ == old(self)@,
            *final(regs) == (Registers { cr1: old(regs).cr1 | CR1_TXEIE, ..*old(regs) }),
    {
        regs.cr1 = regs.cr1 | CR1_TXEIE;
    }

    /// Stops listening for the transmit-ready interrupt.
    pub fn unlisten(&mut self, regs: &mut Registers)
        requires
            old(self)@ == old(regs).id,
        ensures
            final(self)@ == old(self)@,
            *final(regs) == (Registers { cr1: old(regs).cr1 & !CR1_TXEIE, ..*old(regs) }),
    {
        regs.cr1 = regs.cr1 & !CR1_TXEIE;
    }

    /// The instance this handle is bound to.
    pub fn peripheral(&self) -> (r: PeripheralIdentity)
        ensures
            r == self@,
    {
        self.id
    }
}

/// A pin capability for the transmit role: configuring it routes the
/// physical pin to the peripheral's transmit signal.  The routing lives
/// outside the register block modelled here, so nothing more is stated.
pub trait TxPin {
    /// Puts the pin into the peripheral's expected signal mode.
    fn setup(&self);
}

/// A pin capability for the receive role: configuring it routes the
/// physical pin to the peripheral's receive signal.
pub trait RxPin {
    /// Puts the pin into the peripheral's expected signal mode.
    fn setup(&self);
}

/// The baud-rate divisor: `oversampling multiplier * peripheral clock`
/// divided by the baud rate, truncating.  No rounding correction is
/// applied; that is the documented divisor, not an approximation of some
/// other one.
pub open spec fn spec_divisor(mul: u64, clk_hz: u32, baud: u32) -> int
    recommends
        baud > 0,
{
    (mul * clk_hz) / (baud as int)
}

/// True when the binder accepts a configuration for an instance: the baud
/// rate is nonzero and the divisor fits the divisor register.
pub open spec fn spec_binds(id: PeripheralIdentity, config: Config, clk_hz: u32) -> bool {
    &&& config.baudrate != 0
    &&& spec_divisor(spec_oversampling(id), clk_hz, config.baudrate) <= u32::MAX
}

/// The control-register value the binder programs for a configuration:
/// peripheral, transmitter and receiver enabled; the word length encoded as
/// two flags; parity enabled unless none, odd parity selected by its own
/// flag.
pub open spec fn spec_cr1_for(config: Config) -> u32 {
    ((((CR1_UE | CR1_TE | CR1_RE) | (if config.wordlength == WordLength::DataBits7 {
        CR1_M0
    } else {
        0
    })) | (if config.wordlength == WordLength::DataBits9 {
        CR1_M1
    } else {
        0
    })) | (if config.parity != Parity::ParityNone {
        CR1_PCE
    } else {
        0
    })) | (if config.parity == Parity::ParityOdd {
        CR1_PS
    } else {
        0
    })
}

/// The whole register block the binder leaves behind on success: the
/// divisor, the frame format, the advanced features reset, and the status
/// and data registers untouched.
pub open spec fn spec_bound_registers(before: Registers, config: Config, clk_hz: u32) -> Registers {
    Registers {
        brr: spec_divisor(spec_oversampling(before.id), clk_hz, config.baudrate) as u32,
        cr1: spec_cr1_for(config),
        cr2: ((spec_encode_stop_bits(config.stopbits) as u32) * CR2_STOP_SHIFT_VALUE) as u32,
        cr3: 0,
        ..before
    }
}

/// The clock-control state after the binder opened one instance's clock
/// gate.
pub open spec fn spec_clock_enabled(before: ClockControl, id: PeripheralIdentity) -> ClockControl {
    if spec_clock_in_group2(id) {
        ClockControl { apbenr2: before.apbenr2 | spec_clock_enable_bit(id), ..before }
    } else {
        ClockControl { apbenr1: before.apbenr1 | spec_clock_enable_bit(id), ..before }
    }
}

/// Control-register value for a configuration (see [`spec_cr1_for`]).
fn cr1_for(config: &Config) -> (r: u32)
    ensures
        r == spec_cr1_for(*config),
{
    let base: u32 = CR1_UE | CR1_TE | CR1_RE;
    let with_m0 = base | (if config.wordlength == WordLength::DataBits7 {
        CR1_M0
    } else {
        0
    });
    let with_m1 = with_m0 | (if config.wordlength == WordLength::DataBits9 {
        CR1_M1
    } else {
        0
    });
    let with_pce = with_m1 | (if config.parity != Parity::ParityNone {
        CR1_PCE
    } else {
        0
    });
    with_pce | (if config.parity == Parity::ParityOdd {
        CR1_PS
    } else {
        0
    })
}

impl Serial {
    /// The peripheral binder.  Configures both pins, opens the instance's
    /// clock gate, programs the baud-rate divisor and the frame format,
    /// resets the advanced-feature register, enables the peripheral with
    /// its transmitter and receiver, and yields the duplex handle.
    ///
    /// Fails with `InvalidConfig`, changing neither the registers nor the
    /// clock control, exactly when the baud rate is zero or the divisor
    /// overflows the divisor register.
    pub fn bind<TX: TxPin, RX: RxPin>(
        tx: TX,
        rx: RX,
        config: Config,
        clocks: &mut ClockControl,
        regs: &mut Registers,
    ) -> (r: Result<Serial, InvalidConfig>)
        ensures
            final(regs).id == old(regs).id,
            match r {
                Ok(s) => {
                    &&& spec_binds(old(regs).id, config, old(clocks).apb_clk_hz)
                    &&& s@ == (old(regs).id, old(regs).id)
                    &&& *final(regs) == spec_bound_registers(
                        *old(regs),
                        config,
                        old(clocks).apb_clk_hz,
                    )
                    &&& *final(clocks) == spec_clock_enabled(*old(clocks), old(regs).id)
                },
                Err(_) => {
                    &&& !spec_binds(old(regs).id, config, old(clocks).apb_clk_hz)
                    &&& *final(regs) == *old(regs)
                    &&& *final(clocks) == *old(clocks)
                },
            },
    {
        tx.setup();
        rx.setup();

        let id = regs.id;
        let mul = oversampling(id);
        let clk = clocks.apb_clk_hz;
        if config.baudrate == 0 {
            return Err(InvalidConfig);
        }
        assert(mul * (clk as u64) <= 256 * 0xFFFFFFFFu64) by (nonlinear_arith)
            requires
                mul <= 256,
                clk <= 0xFFFFFFFFu32,
        ;
        let div: u64 = (mul * (clk as u64)) / (config.baudrate as u64);
        if div > 0xFFFFFFFF {
            return Err(InvalidConfig);
        }
        clocks.enable_clock(id);

        regs.brr = div as u32;
        // Reset other registers to disable advanced peripheral features
        regs.cr2 = 0;
        regs.cr3 = 0;

        // Enable the peripheral, transmission and receiving
        regs.cr1 = cr1_for(&config);
        let stop = crate::config::encode_stop_bits(config.stopbits);
        regs.cr2 = (stop as u32) * CR2_STOP_SHIFT_VALUE;
        Ok(Serial { tx: Tx { id }, rx: Rx { id } })
    }

    /// Starts listening for one interrupt event; the three enable bits are
    /// independent and nothing else changes.
    pub fn listen(&mut self, event: Event, regs: &mut Registers)
        requires
            old(self)@.0 == old(regs).id,
        ensures
            final(self)@ == old(self)@,
            *final(regs) == (Registers {
                cr1: old(regs).cr1 | spec_event_mask(event),
                ..*old(regs)
            }),
    {
        match event {
            Event::Rxne => {
                regs.cr1 = regs.cr1 | CR1_RXNEIE;
            },
            Event::Txe => {
                regs.cr1 = regs.cr1 | CR1_TXEIE;
            },
            Event::Idle => {
                regs.cr1 = regs.cr1 | CR1_IDLEIE;
            },
        }
    }

    /// Stops listening for one interrupt event; the three enable bits are
    /// independent and nothing else changes.
    pub fn unlisten(&mut self, event: Event, regs: &mut Registers)
        requires
            old(self)@.0 == old(regs).id,
        ensures
            final(self)@ == old(self)@,
            *final(regs) == (Registers {
                cr1: old(regs).cr1 & !spec_event_mask(event),
                ..*old(regs)
            }),
    {
        match event {
            Event::Rxne => {
                regs.cr1 = regs.cr1 & !CR1_RXNEIE;
            },
            Event::Txe => {
                regs.cr1 = regs.cr1 & !CR1_TXEIE;
            },
            Event::Idle => {
                regs.cr1 = regs.cr1 & !CR1_IDLEIE;
            },
        }
    }

    /// Separates the duplex handle into its transmit and receive rights.
    /// Irreversible: the duplex handle is consumed, and exactly one
    /// transmit and one receive handle come out, bound to the same
    /// instance the duplex handle was.
    pub fn split(self) -> (r: (Tx, Rx))
        ensures
            r.0@ == self@.0,
            r.1@ == self@.1,
    {
        (self.tx, self.rx)
    }

    /// One non-blocking read attempt through the owned receive right (see
    /// [`Rx::read`]).
    pub fn read(&mut self, regs: &mut Registers) -> (r: ReadResult)
        requires
            old(self)@.1 == old(regs).id,
        ensures
            final(self)@ == old(self)@,
            r == spec_read_result(old(regs).isr, old(regs).rdr),
            *final(regs) == (Registers {
                isr: spec_isr_after_read(old(regs).isr),
                ..*old(regs)
            }),
    {
        self.rx.read(regs)
    }

    /// One non-blocking write attempt through the owned transmit right (see
    /// [`Tx::write`]).
    pub fn write(&mut self, regs: &mut Registers, byte: u8) -> (r: WriteResult)
        requires
            old(self)@.0 == old(regs).id,
        ensures
            final(self)@ == old(self)@,
            flag_set(old(regs).isr, ISR_TXE) ==> {
                &&& r == WriteResult::Done
                &&& *final(regs) == (Registers {
                    tdr: byte as u32,
                    isr: old(regs).isr & !(ISR_TXE | ISR_TC),
                    ..*old(regs)
                })
            },
            !flag_set(old(regs).isr, ISR_TXE) ==> {
                &&& r == WriteResult::WouldBlock
                &&& *final(regs) == *old(regs)
            },
    {
        self.tx.write(regs, byte)
    }

    /// One non-blocking flush attempt through the owned transmit right (see
    /// [`Tx::flush`]).
    pub fn flush(&mut self, regs: &mut Registers) -> (r: WriteResult)
        requires
            old(self)@.0 == old(regs).id,
        ensures
            final(self)@ == old(self)@,
            *final(regs) == *old(regs),
            r == WriteResult::Done <==> flag_set(old(regs).isr, ISR_TC),
    {
        self.tx.flush(regs)
    }

    /// The instance this handle is bound to (the transmit side's tag; the
    /// binder creates both sides' tags equal).
    pub fn peripheral(&self) -> (r: PeripheralIdentity)
        ensures
            r == self@.0,
    {
        self.tx.id
    }
}

/// One-time construction of the driver from a peripheral instance tag: the
/// original entry point of the binder, as a method on the tag.
pub trait SerialExt: Sized {
    /// The instance this value stands for.
    spec fn instance(self) -> PeripheralIdentity;

    /// Binds the peripheral (see [`Serial::bind`]).
    fn usart<TX: TxPin, RX: RxPin>(
        self,
        tx: TX,
        rx: RX,
        config: Config,
        clocks: &mut ClockControl,
        regs: &mut Registers,
    ) -> (r: Result<Serial, InvalidConfig>)
        requires
            old(regs).id == self.instance(),
        ensures
            final(regs).id == old(regs).id,
            match r {
                Ok(s) => {
                    &&& spec_binds(old(regs).id, config, old(clocks).apb_clk_hz)
                    &&& s@ == (old(regs).id, old(regs).id)
                    &&& *final(regs) == spec_bound_registers(
                        *old(regs),
                        config,
                        old(clocks).apb_clk_hz,
                    )
                    &&& *final(clocks) == spec_clock_enabled(*old(clocks), old(regs).id)
                },
                Err(_) => {
                    &&& !spec_binds(old(regs).id, config, old(clocks).apb_clk_hz)
                    &&& *final(regs) == *old(regs)
                    &&& *final(clocks) == *old(clocks)
                },
            },
    ;
}

impl SerialExt for PeripheralIdentity {
    open spec fn instance(self) -> PeripheralIdentity {
        self
    }

    fn usart<TX: TxPin, RX: RxPin>(
        self,
        tx: TX,
        rx: RX,
        config: Config,
        clocks: &mut ClockControl,
        regs: &mut Registers,
    ) -> (r: Result<Serial, InvalidConfig>) {
        Serial::bind(tx, rx, config, clocks, regs)
    }
}

/// With both the parity-error and the overrun-error flag raised, and the
/// framing and noise flags down, a read attempt reports the parity error
/// and clears only its flag; a second attempt on the resulting status then
/// reports the overrun error.
pub proof fn lemma_read_priority(isr: u32, rdr: u32)
    requires
        flag_set(isr, ISR_PE),
        flag_set(isr, ISR_ORE),
        flag_clear(isr, ISR_FE),
        flag_clear(isr, ISR_NF),
    ensures
        spec_read_result(isr, rdr) == ReadResult::Failed(Error::Parity),
        spec_isr_after_read(isr) == isr & !ISR_PE,
        spec_read_result(spec_isr_after_read(isr), rdr) == ReadResult::Failed(Error::Overrun),
{
    assert((isr & !0x1u32) & 0x1u32 == 0 && (isr & !0x1u32) & 0x2u32 == isr & 0x2u32 && (isr
        & !0x1u32) & 0x4u32 == isr & 0x4u32 && (isr & !0x1u32) & 0x8u32 == isr & 0x8u32)
        by (bit_vector);
}

} // verus!


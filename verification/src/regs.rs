//! Plain-data image of one peripheral's register block, plus the table of
//! per-instance facts (oversampling multiplier, clock-enable bit, register
//! base address).
//!
//! On hardware these registers are memory-mapped; here they are ordinary
//! fields, so the driver logic above them can be verified and exercised
//! against a software-simulated backing store.  Hardware side effects that
//! matter to the driver are reproduced by the access methods: writing a
//! flag's bit in the interrupt-clear register clears that status flag, a
//! data-register read clears the receive-ready flag, and a data-register
//! write clears the transmit-ready and transmission-complete flags until
//! the (simulated) shifter is made ready again.

use vstd::prelude::*;

verus! {

/// Control register: peripheral enable.
pub const CR1_UE: u32 = 0x1;
/// Control register: receiver enable.
pub const CR1_RE: u32 = 0x4;
/// Control register: transmitter enable.
pub const CR1_TE: u32 = 0x8;
/// Control register: idle-line interrupt enable.
pub const CR1_IDLEIE: u32 = 0x10;
/// Control register: receive-data-ready interrupt enable.
pub const CR1_RXNEIE: u32 = 0x20;
/// Control register: transmit-ready interrupt enable.
pub const CR1_TXEIE: u32 = 0x80;
/// Control register: parity selection (odd when set).
pub const CR1_PS: u32 = 0x200;
/// Control register: parity control enable.
pub const CR1_PCE: u32 = 0x400;
/// Control register: word length, low flag (7 data bits when set alone).
pub const CR1_M0: u32 = 0x1000;
/// Control register: word length, high flag (9 data bits when set alone).
pub const CR1_M1: u32 = 0x10000000;

/// Frame-format register: two-bit stop-bit field, lowest bit.
pub const CR2_STOP_SHIFT_VALUE: u32 = 0x1000;

/// Status register: parity error.
pub const ISR_PE: u32 = 0x1;
/// Status register: framing error.
pub const ISR_FE: u32 = 0x2;
/// Status register: noise error.
pub const ISR_NF: u32 = 0x4;
/// Status register: receive buffer overrun error.
pub const ISR_ORE: u32 = 0x8;
/// Status register: receive data ready.
pub const ISR_RXNE: u32 = 0x20;
/// Status register: transmission complete.
pub const ISR_TC: u32 = 0x40;
/// Status register: transmit data register empty (ready for a byte).
pub const ISR_TXE: u32 = 0x80;

/// Offset of the receive data register from the instance's base address.
pub const RDR_OFFSET: u32 = 0x24;
/// Offset of the transmit data register from the instance's base address.
pub const TDR_OFFSET: u32 = 0x28;

/// Tag naming which physical peripheral instance a handle is bound to.
/// A handle's tag never changes after construction.
#[derive(PartialEq, Eq, Structural, Clone, Copy, Debug)]
pub enum PeripheralIdentity {
    /// Low-power variant; its internal counter runs 256 times faster
    /// relative to the bit clock.
    Lpuart,
    Usart1,
    Usart2,
    Usart3,
    Usart4,
}

/// Oversampling multiplier of an instance: how many internal clock ticks
/// the hardware counts per bit period.  256 for the low-power variant,
/// 1 for the standard instances.
pub open spec fn spec_oversampling(id: PeripheralIdentity) -> u64 {
    match id {
        PeripheralIdentity::Lpuart => 256,
        _ => 1,
    }
}

/// Oversampling multiplier of an instance (table lookup).
pub fn oversampling(id: PeripheralIdentity) -> (r: u64)
    ensures
        r == spec_oversampling(id),
        r == 1 || r == 256,
{
    match id {
        PeripheralIdentity::Lpuart => 256,
        _ => 1,
    }
}

/// Base address of an instance's register block on the bus.
pub open spec fn spec_base_address(id: PeripheralIdentity) -> u32 {
    match id {
        PeripheralIdentity::Lpuart => 0x40008000,
        PeripheralIdentity::Usart1 => 0x40013800,
        PeripheralIdentity::Usart2 => 0x40004400,
        PeripheralIdentity::Usart3 => 0x40004800,
        PeripheralIdentity::Usart4 => 0x40004C00,
    }
}

/// Base address of an instance's register block (table lookup).
pub fn base_address(id: PeripheralIdentity) -> (r: u32)
    ensures
        r == spec_base_address(id),
        r <= 0x40013800,
{
    match id {
        PeripheralIdentity::Lpuart => 0x40008000,
        PeripheralIdentity::Usart1 => 0x40013800,
        PeripheralIdentity::Usart2 => 0x40004400,
        PeripheralIdentity::Usart3 => 0x40004800,
        PeripheralIdentity::Usart4 => 0x40004C00,
    }
}

/// True when every bit of `mask` is clear in `reg`.
pub open spec fn flag_clear(reg: u32, mask: u32) -> bool {
    reg & mask == 0
}

/// True when some bit of `mask` is set in `reg`.
pub open spec fn flag_set(reg: u32, mask: u32) -> bool {
    reg & mask != 0
}

/// Image of one instance's register block.  The fields are public so a
/// test bench can play the hardware's part: raising status flags, and
/// inspecting what the driver programmed.
pub struct Registers {
    /// Which instance this block belongs to.
    pub id: PeripheralIdentity,
    /// Baud-rate divisor register.
    pub brr: u32,
    /// Control register (enables, word length, parity, interrupt enables).
    pub cr1: u32,
    /// Frame-format register (two-bit stop-bit field).
    pub cr2: u32,
    /// Advanced-feature register (flow control, special framing modes).
    pub cr3: u32,
    /// Status register.
    pub isr: u32,
    /// Transmit data register.
    pub tdr: u32,
    /// Receive data register.
    pub rdr: u32,
}

impl Registers {
    /// A register block in its reset state.
    pub fn new(id: PeripheralIdentity) -> (r: Registers)
        ensures
            r.id == id,
            r.brr == 0,
            r.cr1 == 0,
            r.cr2 == 0,
            r.cr3 == 0,
            r.isr == 0,
            r.tdr == 0,
            r.rdr == 0,
    {
        Registers { id, brr: 0, cr1: 0, cr2: 0, cr3: 0, isr: 0, tdr: 0, rdr: 0 }
    }

    /// Reads the status register.
    pub fn read_status(&self) -> (r: u32)
        ensures
            r == self.isr,
    {
        self.isr
    }

    /// Writes one flag's bit in the interrupt-clear register: the matching
    /// status flag goes down, every other flag keeps its state.
    pub fn clear_flag(&mut self, mask: u32)
        ensures
            *final(self) == (Registers { isr: old(self).isr & !mask, ..*old(self) }),
    {
        self.isr = self.isr & !mask;
    }

    /// Reads the low byte of the receive data register; the hardware clears
    /// the receive-ready flag on this read.
    pub fn read_data(&mut self) -> (r: u8)
        ensures
            r == (old(self).rdr & 0xFF) as u8,
            *final(self) == (Registers { isr: old(self).isr & !ISR_RXNE, ..*old(self) }),
    {
        let word = self.rdr;
        self.isr = self.isr & !ISR_RXNE;
        assert(word & 0xFF < 256) by (bit_vector);
        (word & 0xFF) as u8
    }

    /// Writes the transmit data register; the hardware drops the
    /// transmit-ready and transmission-complete flags while the byte is
    /// shifted out.
    pub fn write_data(&mut self, byte: u8)
        ensures
            *final(self) == (Registers {
                tdr: byte as u32,
                isr: old(self).isr & !(ISR_TXE | ISR_TC),
                ..*old(self)
            }),
    {
        self.tdr = byte as u32;
        self.isr = self.isr & !(ISR_TXE | ISR_TC);
    }
}

/// Clock-control handle: the peripheral clock frequency and the two
/// peripheral-clock-enable registers.
pub struct ClockControl {
    /// Peripheral bus clock frequency in Hz.
    pub apb_clk_hz: u32,
    /// Clock-enable register for the first peripheral group.
    pub apbenr1: u32,
    /// Clock-enable register for the second peripheral group.
    pub apbenr2: u32,
}

/// Clock-enable bit of an instance, within its group's enable register.
pub open spec fn spec_clock_enable_bit(id: PeripheralIdentity) -> u32 {
    match id {
        PeripheralIdentity::Lpuart => 0x100000,
        PeripheralIdentity::Usart1 => 0x4000,
        PeripheralIdentity::Usart2 => 0x20000,
        PeripheralIdentity::Usart3 => 0x40000,
        PeripheralIdentity::Usart4 => 0x80000,
    }
}

/// True when the instance's clock-enable bit sits in the second group's
/// enable register rather than the first.
pub open spec fn spec_clock_in_group2(id: PeripheralIdentity) -> bool {
    id == PeripheralIdentity::Usart1
}

impl ClockControl {
    /// A clock-control handle for a given peripheral clock frequency, with
    /// every peripheral clock gate still closed.
    pub fn new(apb_clk_hz: u32) -> (r: ClockControl)
        ensures
            r.apb_clk_hz == apb_clk_hz,
            r.apbenr1 == 0,
            r.apbenr2 == 0,
    {
        ClockControl { apb_clk_hz, apbenr1: 0, apbenr2: 0 }
    }

    /// Opens the clock gate of one instance; other gates keep their state.
    pub fn enable_clock(&mut self, id: PeripheralIdentity)
        ensures
            final(self).apb_clk_hz == old(self).apb_clk_hz,
            spec_clock_in_group2(id) ==> {
                &&& final(self).apbenr2 == old(self).apbenr2 | spec_clock_enable_bit(id)
                &&& final(self).apbenr1 == old(self).apbenr1
            },
            !spec_clock_in_group2(id) ==> {
                &&& final(self).apbenr1 == old(self).apbenr1 | spec_clock_enable_bit(id)
                &&& final(self).apbenr2 == old(self).apbenr2
            },
    {
        match id {
            PeripheralIdentity::Lpuart => {
                self.apbenr1 = self.apbenr1 | 0x100000;
            },
            PeripheralIdentity::Usart1 => {
                self.apbenr2 = self.apbenr2 | 0x4000;
            },
            PeripheralIdentity::Usart2 => {
                self.apbenr1 = self.apbenr1 | 0x20000;
            },
            PeripheralIdentity::Usart3 => {
                self.apbenr1 = self.apbenr1 | 0x40000;
            },
            PeripheralIdentity::Usart4 => {
                self.apbenr1 = self.apbenr1 | 0x80000;
            },
        }
    }
}

} // verus!

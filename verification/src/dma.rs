//! DMA binding: fusing a transmit or receive right with an owned DMA
//! channel, and the in-flight transfer token.
//!
//! The channel is the caller-supplied capability of the external DMA
//! engine; its programmed settings are plain data here, so what the driver
//! programs into it (direction, the fixed peripheral-side address, the
//! memory address and length of one transfer, the start) is stated exactly.
//! Completion reporting belongs to the external engine; this driver only
//! programs the setters and starts the channel.

use vstd::prelude::*;

use crate::regs::{base_address, spec_base_address, PeripheralIdentity, RDR_OFFSET, TDR_OFFSET};
use crate::serial::{Rx, Tx};

verus! {

/// Direction of a DMA channel's transfers.
#[derive(PartialEq, Eq, Structural, Clone, Copy, Debug)]
pub enum TransferDirection {
    /// Memory to peripheral (transmit).
    MemoryToPeriph,
    /// Peripheral to memory (receive).
    PeriphToMemory,
}

/// A DMA channel capability, as this driver sees it: the settings the
/// driver programs, held as plain data.  Not copyable: it stands for
/// exclusive control of one channel.
#[derive(Debug)]
pub struct DmaChannel {
    /// Transfer direction, once set.
    pub direction: Option<TransferDirection>,
    /// Fixed peripheral-side address.
    pub peripheral_address: u32,
    /// Whether the peripheral-side address auto-increments.
    pub peripheral_increment: bool,
    /// Memory-side address of the current transfer.
    pub memory_address: usize,
    /// Whether the memory-side address auto-increments.
    pub memory_increment: bool,
    /// Transfer length in elements.
    pub transfer_length: usize,
    /// Whether the channel has been started.
    pub started: bool,
}

impl DmaChannel {
    /// An unconfigured channel.
    pub fn new() -> (r: DmaChannel)
        ensures
            r == (DmaChannel {
                direction: None,
                peripheral_address: 0,
                peripheral_increment: false,
                memory_address: 0,
                memory_increment: false,
                transfer_length: 0,
                started: false,
            }),
    {
        DmaChannel {
            direction: None,
            peripheral_address: 0,
            peripheral_increment: false,
            memory_address: 0,
            memory_increment: false,
            transfer_length: 0,
            started: false,
        }
    }

    /// Sets the transfer direction.
    pub fn set_direction(&mut self, direction: TransferDirection)
        ensures
            *final(self) == (DmaChannel { direction: Some(direction), ..*old(self) }),
    {
        self.direction = Some(direction);
    }

    /// Sets the fixed peripheral-side address and its increment flag.
    pub fn set_peripheral_address(&mut self, address: u32, increment: bool)
        ensures
            *final(self) == (DmaChannel {
                peripheral_address: address,
                peripheral_increment: increment,
                ..*old(self)
            }),
    {
        self.peripheral_address = address;
        self.peripheral_increment = increment;
    }

    /// Sets the memory-side address and its increment flag.
    pub fn set_memory_address(&mut self, address: usize, increment: bool)
        ensures
            *final(self) == (DmaChannel {
                memory_address: address,
                memory_increment: increment,
                ..*old(self)
            }),
    {
        self.memory_address = address;
        self.memory_increment = increment;
    }

    /// Sets the transfer length in elements.
    pub fn set_transfer_length(&mut self, len: usize)
        ensures
            *final(self) == (DmaChannel { transfer_length: len, ..*old(self) }),
    {
        self.transfer_length = len;
    }

    /// Starts the channel.
    pub fn start(&mut self)
        ensures
            *final(self) == (DmaChannel { started: true, ..*old(self) }),
    {
        self.started = true;
    }
}

/// Address of an instance's transmit data register.
pub open spec fn spec_tdr_address(id: PeripheralIdentity) -> u32 {
    (spec_base_address(id) + TDR_OFFSET) as u32
}

/// Address of an instance's receive data register.
pub open spec fn spec_rdr_address(id: PeripheralIdentity) -> u32 {
    (spec_base_address(id) + RDR_OFFSET) as u32
}

/// A transmit right fused with an owned DMA channel, committed at binding
/// time to the memory-to-peripheral direction and this instance's transmit
/// data register; neither is ever reconfigured for the handle's lifetime.
pub struct DmaTx {
    id: PeripheralIdentity,
    channel: DmaChannel,
}

/// A receive right fused with an owned DMA channel, committed at binding
/// time to the peripheral-to-memory direction and this instance's receive
/// data register; neither is ever reconfigured for the handle's lifetime.
pub struct DmaRx {
    id: PeripheralIdentity,
    channel: DmaChannel,
}

impl DmaTx {
    /// The instance this handle is bound to.
    pub closed spec fn instance(&self) -> PeripheralIdentity {
        self.id
    }

    /// The owned channel's programmed settings.
    pub closed spec fn channel_state(&self) -> DmaChannel {
        self.channel
    }

    /// The instance this handle is bound to.
    pub fn peripheral(&self) -> (r: PeripheralIdentity)
        ensures
            r == self.instance(),
    {
        self.id
    }

    /// The owned channel's programmed settings, for inspection.
    pub fn channel(&self) -> (r: &DmaChannel)
        ensures
            *r == self.channel_state(),
    {
        &self.channel
    }
}

impl DmaRx {
    /// The instance this handle is bound to.
    pub closed spec fn instance(&self) -> PeripheralIdentity {
        self.id
    }

    /// The owned channel's programmed settings.
    pub closed spec fn channel_state(&self) -> DmaChannel {
        self.channel
    }

    /// The instance this handle is bound to.
    pub fn peripheral(&self) -> (r: PeripheralIdentity)
        ensures
            r == self.instance(),
    {
        self.id
    }

    /// The owned channel's programmed settings, for inspection.
    pub fn channel(&self) -> (r: &DmaChannel)
        ensures
            *r == self.channel_state(),
    {
        &self.channel
    }
}

/// Relies on core::sync::atomic::compiler_fence with sequentially
/// consistent ordering: buffer reads and writes are not reordered across
/// the DMA-start boundary.  The fence has no effect the logic here could
/// state.
#[verifier::external_body]
fn fence() {
    core::sync::atomic::compiler_fence(core::sync::atomic::Ordering::SeqCst);
}

/// Relies on Vec::as_ptr for the buffer's memory-side address.  An address
/// is not a function of the buffer's contents, so nothing is promised of
/// the result.
#[verifier::external_body]
fn buffer_address(buffer: &Vec<u8>) -> usize {
    buffer.as_ptr() as usize
}

impl Tx {
    /// Fuses this transmit right with an owned DMA channel: fixes, exactly
    /// once, the memory-to-peripheral direction and the transmit data
    /// register as the peripheral-side address.
    pub fn with_dma(self, channel: DmaChannel) -> (r: DmaTx)
        ensures
            r.instance() == self@,
            r.channel_state() == (DmaChannel {
                direction: Some(TransferDirection::MemoryToPeriph),
                peripheral_address: spec_tdr_address(self@),
                peripheral_increment: false,
                ..channel
            }),
    {
        let id = self.peripheral();
        let mut channel = channel;
        channel.set_direction(TransferDirection::MemoryToPeriph);
        channel.set_peripheral_address(tdr_address(id), false);
        DmaTx { id, channel }
    }
}

impl Rx {
    /// Fuses this receive right with an owned DMA channel: fixes, exactly
    /// once, the peripheral-to-memory direction and the receive data
    /// register as the peripheral-side address.
    pub fn with_dma(self, channel: DmaChannel) -> (r: DmaRx)
        ensures
            r.instance() == self@,
            r.channel_state() == (DmaChannel {
                direction: Some(TransferDirection::PeriphToMemory),
                peripheral_address: spec_rdr_address(self@),
                peripheral_increment: false,
                ..channel
            }),
    {
        let id = self.peripheral();
        let mut channel = channel;
        channel.set_direction(TransferDirection::PeriphToMemory);
        channel.set_peripheral_address(rdr_address(id), false);
        DmaRx { id, channel }
    }
}

/// Address of an instance's transmit data register.
fn tdr_address(id: PeripheralIdentity) -> (r: u32)
    ensures
        r == spec_tdr_address(id),
{
    base_address(id) + TDR_OFFSET
}

/// Address of an instance's receive data register.
fn rdr_address(id: PeripheralIdentity) -> (r: u32)
    ensures
        r == spec_rdr_address(id),
{
    base_address(id) + RDR_OFFSET
}

/// One in-flight bulk transfer: owns the buffer and the DMA-bound handle
/// that started it, for the operation's duration.  Its existence is the
/// sole evidence that a transfer is outstanding for that handle, and the
/// handle comes back only together with the buffer, re-enabling a
/// subsequent transfer.
pub struct Transfer<H> {
    buffer: Vec<u8>,
    handle: H,
}

impl<H> Transfer<H> {
    /// The owned buffer's contents.
    pub closed spec fn spec_buffer(&self) -> Seq<u8> {
        self.buffer@
    }

    /// The owned handle.
    pub closed spec fn spec_handle(&self) -> H {
        self.handle
    }

    /// Hands the buffer and the handle back together, once completion
    /// reporting (the external DMA engine's, not modelled here) says the
    /// operation is over.
    pub fn resolve(self) -> (r: (Vec<u8>, H))
        ensures
            r.0@ == self.spec_buffer(),
            r.1 == self.spec_handle(),
    {
        (self.buffer, self.handle)
    }
}

impl DmaTx {
    /// Starts one memory-to-peripheral transfer of the whole buffer:
    /// programs the channel with the buffer's address and length, issues
    /// the ordering fence, starts the channel, and moves the buffer and
    /// this handle into the returned transfer token.  The direction and
    /// the peripheral-side address fixed at binding stay as they were.
    pub fn write(self, buffer: Vec<u8>) -> (t: Transfer<DmaTx>)
        ensures
            t.spec_buffer() == buffer@,
            t.spec_handle().instance() == self.instance(),
            ({
                let after = t.spec_handle().channel_state();
                let before = self.channel_state();
                &&& after.direction == before.direction
                &&& after.peripheral_address == before.peripheral_address
                &&& after.peripheral_increment == before.peripheral_increment
                &&& after.memory_increment == true
                &&& after.transfer_length == buffer@.len()
                &&& after.started == true
            }),
    {
        let id = self.id;
        let mut channel = self.channel;
        let address = buffer_address(&buffer);
        channel.set_memory_address(address, true);
        channel.set_transfer_length(buffer.len());

        fence();
        channel.start();

        Transfer { buffer, handle: DmaTx { id, channel } }
    }
}

impl DmaRx {
    /// Starts one peripheral-to-memory transfer filling the whole buffer:
    /// programs the channel with the buffer's address and length, issues
    /// the ordering fence, starts the channel, and moves the buffer and
    /// this handle into the returned transfer token.  The direction and
    /// the peripheral-side address fixed at binding stay as they were.
    pub fn read(self, buffer: Vec<u8>) -> (t: Transfer<DmaRx>)
        ensures
            t.spec_buffer() == buffer@,
            t.spec_handle().instance() == self.instance(),
            ({
                let after = t.spec_handle().channel_state();
                let before = self.channel_state();
                &&& after.direction == before.direction
                &&& after.peripheral_address == before.peripheral_address
                &&& after.peripheral_increment == before.peripheral_increment
                &&& after.memory_increment == true
                &&& after.transfer_length == buffer@.len()
                &&& after.started == true
            }),
    {
        let id = self.id;
        let mut channel = self.channel;
        let address = buffer_address(&buffer);
        channel.set_memory_address(address, true);
        channel.set_transfer_length(buffer.len());

        fence();
        channel.start();

        Transfer { buffer, handle: DmaRx { id, channel } }
    }
}

} // verus!

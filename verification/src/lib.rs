//! Driver logic for an asynchronous serial peripheral (UART/LPUART family).
//!
//! The driver translates a frame configuration into register values
//! (baud-rate divisor, word length, parity, stop bits), splits one duplex
//! handle into exclusive transmit/receive sub-handles, decodes the status
//! register for non-blocking byte I/O, and binds a DMA channel for bulk
//! transfers.  All register traffic goes through [`regs::Registers`], a
//! plain-data image of the peripheral's register block, so the logic can be
//! exercised against a software-simulated backing store.

pub mod config;
pub mod dma;
pub mod regs;
pub mod serial;

pub use config::{Config, Parity, StopBits, WordLength};
pub use dma::{DmaChannel, DmaRx, DmaTx, Transfer, TransferDirection};
pub use regs::{ClockControl, PeripheralIdentity, Registers};
pub use serial::{
    Error, Event, InvalidConfig, ReadResult, Rx, RxPin, Serial, SerialExt, Tx, TxPin, WriteResult,
};

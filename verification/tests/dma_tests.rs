use uart_hal::{
    ClockControl, Config, DmaChannel, DmaRx, DmaTx, PeripheralIdentity, Registers, Rx, RxPin,
    Serial, Transfer, TransferDirection, Tx, TxPin,
};

struct DmaBenchTxPin;

impl TxPin for DmaBenchTxPin {
    fn setup(&self) {}
}

struct DmaBenchRxPin;

impl RxPin for DmaBenchRxPin {
    fn setup(&self) {}
}

fn split_handles(id: PeripheralIdentity) -> (Tx, Rx) {
    let mut regs = Registers::new(id);
    let mut clocks = ClockControl::new(8_000_000);
    let serial = Serial::bind(
        DmaBenchTxPin,
        DmaBenchRxPin,
        Config::default(),
        &mut clocks,
        &mut regs,
    )
    .expect("binding must succeed");
    serial.split()
}

#[test]
fn with_dma_fixes_transmit_direction_and_address() {
    let (tx, _) = split_handles(PeripheralIdentity::Usart1);
    let dma_tx = tx.with_dma(DmaChannel::new());
    let channel = dma_tx.channel();
    assert_eq!(channel.direction, Some(TransferDirection::MemoryToPeriph));
    assert_eq!(channel.peripheral_address, 0x4001_3800 + 0x28);
    assert!(!channel.peripheral_increment);
    assert!(!channel.started);
}

#[test]
fn with_dma_fixes_receive_direction_and_address() {
    let (_, rx) = split_handles(PeripheralIdentity::Lpuart);
    let dma_rx = rx.with_dma(DmaChannel::new());
    let channel = dma_rx.channel();
    assert_eq!(channel.direction, Some(TransferDirection::PeriphToMemory));
    assert_eq!(channel.peripheral_address, 0x4000_8000 + 0x24);
    assert!(!channel.peripheral_increment);
}

#[test]
fn transmit_transfer_programs_length_and_starts_channel() {
    let (tx, _) = split_handles(PeripheralIdentity::Usart1);
    let dma_tx = tx.with_dma(DmaChannel::new());
    let buffer = vec![0x41u8, 0x42, 0x43];

    let transfer: Transfer<DmaTx> = dma_tx.write(buffer);
    let (buffer, dma_tx) = transfer.resolve();
    assert_eq!(buffer, vec![0x41u8, 0x42, 0x43]);

    let channel = dma_tx.channel();
    assert_eq!(channel.transfer_length, 3);
    assert!(channel.memory_increment);
    assert!(channel.started);
    assert_eq!(channel.direction, Some(TransferDirection::MemoryToPeriph));
    assert_eq!(channel.peripheral_address, 0x4001_3800 + 0x28);
}

#[test]
fn receive_transfer_programs_length_and_starts_channel() {
    let (_, rx) = split_handles(PeripheralIdentity::Usart2);
    let dma_rx = rx.with_dma(DmaChannel::new());
    let buffer = vec![0u8; 16];

    let transfer: Transfer<DmaRx> = dma_rx.read(buffer);
    let (buffer, dma_rx) = transfer.resolve();
    assert_eq!(buffer.len(), 16);

    let channel = dma_rx.channel();
    assert_eq!(channel.transfer_length, 16);
    assert!(channel.started);
    assert_eq!(channel.direction, Some(TransferDirection::PeriphToMemory));
}

#[test]
fn resolved_transfer_re_enables_the_handle() {
    // One transfer at a time: the handle is consumed by `write` and only
    // comes back, with the buffer, from `resolve`; a second transfer is
    // possible exactly from then on.
    let (tx, _) = split_handles(PeripheralIdentity::Usart1);
    let dma_tx = tx.with_dma(DmaChannel::new());

    let transfer = dma_tx.write(vec![1u8, 2]);
    let (_, dma_tx) = transfer.resolve();
    let transfer = dma_tx.write(vec![3u8, 4, 5]);
    let (buffer, dma_tx) = transfer.resolve();
    assert_eq!(buffer, vec![3u8, 4, 5]);
    assert_eq!(dma_tx.channel().transfer_length, 3);
    assert_eq!(dma_tx.peripheral(), PeripheralIdentity::Usart1);
}

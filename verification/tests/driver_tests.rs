use uart_hal::regs::{
    CR1_IDLEIE, CR1_M1, CR1_PCE, CR1_PS, CR1_RE, CR1_RXNEIE, CR1_TE, CR1_TXEIE, CR1_UE, ISR_FE,
    ISR_NF, ISR_ORE, ISR_PE, ISR_RXNE, ISR_TC, ISR_TXE,
};
use uart_hal::{
    ClockControl, Config, Error, Event, PeripheralIdentity, ReadResult, Registers, Rx, RxPin,
    Serial, SerialExt, StopBits, Tx, TxPin, WriteResult,
};

struct BenchTxPin;

impl TxPin for BenchTxPin {
    fn setup(&self) {}
}

struct BenchRxPin;

impl RxPin for BenchRxPin {
    fn setup(&self) {}
}

fn bench(id: PeripheralIdentity, clk_hz: u32, config: Config) -> (Serial, Registers, ClockControl) {
    let mut regs = Registers::new(id);
    let mut clocks = ClockControl::new(clk_hz);
    let serial = Serial::bind(BenchTxPin, BenchRxPin, config, &mut clocks, &mut regs)
        .expect("binding must succeed for a representable divisor");
    (serial, regs, clocks)
}

#[test]
fn divisor_standard_instance() {
    let (_, regs, _) = bench(PeripheralIdentity::Usart1, 8_000_000, Config::default());
    assert_eq!(regs.brr, 416);
}

#[test]
fn divisor_low_power_instance() {
    let (_, regs, _) = bench(PeripheralIdentity::Lpuart, 8_000_000, Config::default());
    assert_eq!(regs.brr, 106_666);
}

#[test]
fn bind_programs_frame_format() {
    let config = Config::default()
        .wordlength_9()
        .parity_odd()
        .stopbits(StopBits::STOP1P5);
    let (_, regs, clocks) = bench(PeripheralIdentity::Usart1, 8_000_000, config);
    assert_eq!(regs.cr1, CR1_UE | CR1_TE | CR1_RE | CR1_M1 | CR1_PCE | CR1_PS);
    assert_eq!(regs.cr2, 0b11 << 12);
    assert_eq!(regs.cr3, 0);
    assert_eq!(clocks.apbenr2, 0x4000);
    assert_eq!(clocks.apbenr1, 0);
}

#[test]
fn bind_default_config_enables_only_core_bits() {
    let (_, regs, clocks) = bench(PeripheralIdentity::Usart2, 8_000_000, Config::default());
    assert_eq!(regs.cr1, CR1_UE | CR1_TE | CR1_RE);
    assert_eq!(regs.cr2, 0);
    assert_eq!(clocks.apbenr1, 0x20000);
}

#[test]
fn bind_rejects_zero_baud_rate() {
    let mut regs = Registers::new(PeripheralIdentity::Usart1);
    let mut clocks = ClockControl::new(8_000_000);
    let config = Config::default().baudrate(0);
    let r = Serial::bind(BenchTxPin, BenchRxPin, config, &mut clocks, &mut regs);
    assert!(r.is_err());
    assert_eq!(regs.brr, 0);
    assert_eq!(regs.cr1, 0);
    assert_eq!(clocks.apbenr1, 0);
    assert_eq!(clocks.apbenr2, 0);
}

#[test]
fn bind_rejects_divisor_overflow() {
    let mut regs = Registers::new(PeripheralIdentity::Lpuart);
    let mut clocks = ClockControl::new(u32::MAX);
    let config = Config::default().baudrate(1);
    let r = Serial::bind(BenchTxPin, BenchRxPin, config, &mut clocks, &mut regs);
    assert!(r.is_err());
    assert_eq!(regs.brr, 0);
    assert_eq!(clocks.apbenr1, 0);
}

#[test]
fn usart_trait_entry_point_binds() {
    let mut regs = Registers::new(PeripheralIdentity::Usart1);
    let mut clocks = ClockControl::new(8_000_000);
    let serial = PeripheralIdentity::Usart1
        .usart(BenchTxPin, BenchRxPin, Config::default(), &mut clocks, &mut regs)
        .expect("binding must succeed");
    assert_eq!(serial.peripheral(), PeripheralIdentity::Usart1);
    assert_eq!(regs.brr, 416);
}

#[test]
fn split_yields_one_tx_and_one_rx_with_same_tag() {
    let (serial, mut regs, _) = bench(PeripheralIdentity::Usart1, 8_000_000, Config::default());
    let (mut tx, mut rx): (Tx, Rx) = serial.split();
    assert_eq!(tx.peripheral(), PeripheralIdentity::Usart1);
    assert_eq!(rx.peripheral(), PeripheralIdentity::Usart1);
    // both halves stay independently usable after the split
    regs.isr = ISR_TXE;
    assert_eq!(tx.write(&mut regs, 0x55), WriteResult::Done);
    regs.isr |= ISR_RXNE;
    regs.rdr = 0x66;
    assert_eq!(rx.read(&mut regs), ReadResult::Received(0x66));
}

#[test]
fn read_priority_parity_before_overrun() {
    let (serial, mut regs, _) = bench(PeripheralIdentity::Usart1, 8_000_000, Config::default());
    let (_, mut rx) = serial.split();
    regs.isr = ISR_PE | ISR_ORE;
    assert_eq!(rx.read(&mut regs), ReadResult::Failed(Error::Parity));
    assert_eq!(regs.isr, ISR_ORE);
    assert_eq!(rx.read(&mut regs), ReadResult::Failed(Error::Overrun));
    assert_eq!(regs.isr, 0);
    assert_eq!(rx.read(&mut regs), ReadResult::WouldBlock);
}

#[test]
fn read_reports_each_error_and_clears_only_its_flag() {
    let (serial, mut regs, _) = bench(PeripheralIdentity::Usart1, 8_000_000, Config::default());
    let (_, mut rx) = serial.split();

    regs.isr = ISR_FE | ISR_RXNE;
    assert_eq!(rx.read(&mut regs), ReadResult::Failed(Error::Framing));
    assert_eq!(regs.isr, ISR_RXNE);

    regs.isr = ISR_NF;
    assert_eq!(rx.read(&mut regs), ReadResult::Failed(Error::Noise));
    assert_eq!(regs.isr, 0);
}

#[test]
fn read_takes_ready_byte_and_clears_ready_flag() {
    let (mut serial, mut regs, _) = bench(PeripheralIdentity::Usart1, 8_000_000, Config::default());
    regs.isr = ISR_RXNE;
    regs.rdr = 0x41;
    assert_eq!(serial.read(&mut regs), ReadResult::Received(0x41));
    assert_eq!(regs.isr, 0);
    assert_eq!(serial.read(&mut regs), ReadResult::WouldBlock);
}

#[test]
fn write_blocks_until_ready_flag_and_stores_exact_byte() {
    let (mut serial, mut regs, _) = bench(PeripheralIdentity::Usart1, 8_000_000, Config::default());
    let cr1_before = regs.cr1;

    assert_eq!(serial.write(&mut regs, 0xA5), WriteResult::WouldBlock);
    assert_eq!(regs.tdr, 0, "a blocked write must leave the data register unmodified");

    regs.isr = ISR_TXE;
    assert_eq!(serial.write(&mut regs, 0xA5), WriteResult::Done);
    assert_eq!(regs.tdr, 0xA5);
    assert_eq!(regs.isr & ISR_TXE, 0, "accepting a byte drops the ready flag");
    assert_eq!(regs.cr1, cr1_before);
}

#[test]
fn flush_done_only_with_transmission_complete() {
    let (mut serial, mut regs, _) = bench(PeripheralIdentity::Usart1, 8_000_000, Config::default());
    assert_eq!(serial.flush(&mut regs), WriteResult::WouldBlock);
    regs.isr = ISR_TC;
    assert_eq!(serial.flush(&mut regs), WriteResult::Done);
    assert_eq!(regs.isr, ISR_TC, "flush never changes any register");
}

#[test]
fn listen_and_unlisten_toggle_independent_bits() {
    let (mut serial, mut regs, _) = bench(PeripheralIdentity::Usart1, 8_000_000, Config::default());
    let base = regs.cr1;
    serial.listen(Event::Rxne, &mut regs);
    serial.listen(Event::Txe, &mut regs);
    serial.listen(Event::Idle, &mut regs);
    assert_eq!(regs.cr1, base | CR1_RXNEIE | CR1_TXEIE | CR1_IDLEIE);
    serial.unlisten(Event::Txe, &mut regs);
    assert_eq!(regs.cr1, base | CR1_RXNEIE | CR1_IDLEIE);
    serial.unlisten(Event::Rxne, &mut regs);
    serial.unlisten(Event::Idle, &mut regs);
    assert_eq!(regs.cr1, base);
}

#[test]
fn split_handles_listen_for_their_own_events() {
    let (serial, mut regs, _) = bench(PeripheralIdentity::Usart1, 8_000_000, Config::default());
    let base = regs.cr1;
    let (mut tx, mut rx) = serial.split();
    tx.listen(&mut regs);
    assert_eq!(regs.cr1, base | CR1_TXEIE);
    rx.listen(&mut regs);
    assert_eq!(regs.cr1, base | CR1_TXEIE | CR1_RXNEIE);
    tx.unlisten(&mut regs);
    rx.unlisten(&mut regs);
    assert_eq!(regs.cr1, base);
}

#[test]
fn end_to_end_default_config_two_bytes_then_flush() {
    let (mut serial, mut regs, _) = bench(PeripheralIdentity::Usart1, 8_000_000, Config::default());
    assert_eq!(regs.brr, 416);

    // not ready yet: neither byte may reach the data register
    assert_eq!(serial.write(&mut regs, 0x41), WriteResult::WouldBlock);
    assert_eq!(regs.tdr, 0);

    regs.isr |= ISR_TXE;
    assert_eq!(serial.write(&mut regs, 0x41), WriteResult::Done);
    assert_eq!(regs.tdr, 0x41);

    // the second byte only lands after the next ready-flag transition
    assert_eq!(serial.write(&mut regs, 0x42), WriteResult::WouldBlock);
    assert_eq!(regs.tdr, 0x41);
    regs.isr |= ISR_TXE;
    assert_eq!(serial.write(&mut regs, 0x42), WriteResult::Done);
    assert_eq!(regs.tdr, 0x42);

    // flush succeeds only once transmission-complete sets
    assert_eq!(serial.flush(&mut regs), WriteResult::WouldBlock);
    regs.isr |= ISR_TC;
    assert_eq!(serial.flush(&mut regs), WriteResult::Done);
}

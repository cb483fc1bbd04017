use uart_hal::config::{decode_stop_bits, encode_stop_bits};
use uart_hal::{Config, Parity, StopBits, WordLength};

#[test]
fn default_config_is_19200_8n1() {
    let c = Config::default();
    assert_eq!(c.baudrate, 19200);
    assert_eq!(c.wordlength, WordLength::DataBits8);
    assert_eq!(c.parity, Parity::ParityNone);
    assert!(matches!(c.stopbits, StopBits::STOP1));
}

#[test]
fn builders_overwrite_one_field_each() {
    let c = Config::default()
        .baudrate(115_200)
        .parity_even()
        .wordlength_9()
        .stopbits(StopBits::STOP2);
    assert_eq!(c.baudrate, 115_200);
    assert_eq!(c.parity, Parity::ParityEven);
    assert_eq!(c.wordlength, WordLength::DataBits9);
    assert!(matches!(c.stopbits, StopBits::STOP2));

    let c = c.parity_odd();
    assert_eq!(c.parity, Parity::ParityOdd);
    let c = c.parity_none();
    assert_eq!(c.parity, Parity::ParityNone);
    let c = c.wordlength_8();
    assert_eq!(c.wordlength, WordLength::DataBits8);
    assert_eq!(c.baudrate, 115_200);
}

#[test]
fn stop_bits_encoding_values() {
    assert_eq!(encode_stop_bits(StopBits::STOP1), 0b00);
    assert_eq!(encode_stop_bits(StopBits::STOP0P5), 0b01);
    assert_eq!(encode_stop_bits(StopBits::STOP2), 0b10);
    assert_eq!(encode_stop_bits(StopBits::STOP1P5), 0b11);
}

#[test]
fn stop_bits_round_trip_is_identity() {
    for s in [
        StopBits::STOP1,
        StopBits::STOP0P5,
        StopBits::STOP2,
        StopBits::STOP1P5,
    ] {
        assert_eq!(decode_stop_bits(encode_stop_bits(s)), s);
    }
    for bits in 0u8..4 {
        assert_eq!(encode_stop_bits(decode_stop_bits(bits)), bits);
    }
}

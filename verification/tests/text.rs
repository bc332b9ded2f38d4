use nfc_bridge::text::{to_decimal, to_hex};

#[test]
fn to_hex_conversion() {
    assert_eq!(to_hex(&[0x3B, 0x88, 0x80]), "3B8880");
    assert_eq!(to_hex(&[0x00, 0xFF]), "00FF");
    assert_eq!(to_hex(&[]), "");
}

#[test]
fn hex_of_every_byte() {
    let mut byte: u32 = 0;
    while byte < 256 {
        assert_eq!(to_hex(&[byte as u8]), format!("{:02X}", byte));
        byte += 1;
    }
}

#[test]
fn hex_tells_bytes_apart() {
    assert_ne!(to_hex(&[0x01, 0x23]), to_hex(&[0x12, 0x03]));
    assert_ne!(to_hex(&[0x00]), to_hex(&[0x00, 0x00]));
}

#[test]
fn decimal_numbers() {
    assert_eq!(to_decimal(0), "0");
    assert_eq!(to_decimal(9), "9");
    assert_eq!(to_decimal(10), "10");
    assert_eq!(to_decimal(9876), "9876");
    assert_eq!(to_decimal(u64::MAX), "18446744073709551615");
}

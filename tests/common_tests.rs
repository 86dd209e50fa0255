use gbemu::common::{between, bit, bit_set, Byte};

#[test]
fn test_bit() {
    assert!(bit(0b00000001, 0));
    assert!(!bit(0b00000001, 1));
    assert!(bit(0b10000000, 7));
    assert!(!bit(0b01111111, 7));
    assert!(bit(0b00010000, 4));
}

#[test]
fn test_bit_set() {
    let mut value: Byte = 0;

    bit_set(&mut value, 0, true);
    assert_eq!(value, 0b00000001);

    bit_set(&mut value, 7, true);
    assert_eq!(value, 0b10000001);

    bit_set(&mut value, 0, false);
    assert_eq!(value, 0b10000000);

    bit_set(&mut value, 7, false);
    assert_eq!(value, 0);
}

#[test]
fn test_between() {
    assert!(between(5, 0, 10));
    assert!(between(0, 0, 10));
    assert!(between(10, 0, 10));
    assert!(!between(11, 0, 10));
    assert!(!between(0xC000, 0x8000, 0x9FFF));
    assert!(between(0xC000, 0xC000, 0xDFFF));
}

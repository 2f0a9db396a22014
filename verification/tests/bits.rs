use m68k::{set_bit, test_bit};

#[test]
fn test_test_bit() {
    assert_eq!(true, test_bit(0b1111_1111, 7));
    assert_eq!(false, test_bit(0b0111_1111, 7));
}

#[test]
fn test_set_bit() {
    assert_eq!(0b1111_1111, set_bit(0b1111_1111, 7));
    assert_eq!(0b1111_1111, set_bit(0b0111_1111, 7));
    assert_eq!(0b0100_0000, set_bit(0b0000_0000, 6));
}

#[test]
fn test_bit_reaches_the_highest_bit() {
    assert_eq!(true, test_bit(0x8000_0000, 31));
    assert_eq!(false, test_bit(0x7fff_ffff, 31));
    assert_eq!(0x8000_0001, set_bit(1, 31));
}

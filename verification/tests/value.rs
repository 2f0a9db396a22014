use m68k::addressing_mode::DataSize;
use m68k::registers::ConditionCode;
use m68k::value::{is_negative, is_zero, shift_left, shift_right, Value};

fn flags(x: bool, n: bool, z: bool, v: bool, c: bool) -> ConditionCode {
    ConditionCode { x, n, z, v, c }
}

#[test]
fn from_raw_keeps_the_low_bits() {
    assert_eq!(Value::from_raw(DataSize::Byte, 0x1234_5678), Value::Byte(0x78));
    assert_eq!(Value::from_raw(DataSize::Word, 0x1234_5678), Value::Word(0x5678));
    assert_eq!(Value::from_raw(DataSize::LongWord, 0x1234_5678), Value::LongWord(0x1234_5678));
}

#[test]
fn conversions_truncate_and_keep_the_sign() {
    assert_eq!(Value::Byte(0xff).to_u32(), 0xff);
    assert_eq!(Value::Byte(0xff).to_i32(), -1);
    assert_eq!(Value::Byte(0x7f).to_i32(), 127);
    assert_eq!(Value::Word(0x8000).to_i32(), -32768);
    assert_eq!(Value::LongWord(0xffff_fffe).to_i32(), -2);
    assert_eq!(Value::LongWord(0x1234_5678).to_u16(), 0x5678);
    assert_eq!(Value::LongWord(0x1234_5678).to_u8(), 0x78);
    assert_eq!(Value::Word(0x1234).to_u8(), 0x34);
    assert_eq!(Value::Byte(0x80).sign_extend(), 0xffff_ff80);
    assert_eq!(Value::Word(0xfffc).sign_extend(), 0xffff_fffc);
    assert_eq!(Value::Word(0x7ffc).sign_extend(), 0x7ffc);
    assert_eq!(Value::LongWord(5).sign_extend(), 5);
    assert_eq!(Value::LongWord(0x1234_5678).coerce(DataSize::Byte), Value::Byte(0x78));
    assert_eq!(Value::Byte(0xff).coerce(DataSize::Word), Value::Word(0x00ff));
    assert_eq!(Value::Byte(3).data_size(), DataSize::Byte);
}

#[test]
fn add_sets_carry_and_zero() {
    let (sum, cc) = Value::Byte(0xff).add_cc(DataSize::Byte, Value::Byte(1));
    assert_eq!(sum, Value::Byte(0));
    assert_eq!(cc, flags(true, false, true, false, true));
}

#[test]
fn add_sets_overflow_without_carry() {
    let (sum, cc) = Value::Byte(0x7f).add_cc(DataSize::Byte, Value::Byte(1));
    assert_eq!(sum, Value::Byte(0x80));
    assert_eq!(cc, flags(false, true, false, true, false));
}

#[test]
fn add_word_and_long() {
    let (sum, cc) = Value::Word(0x8000).add_cc(DataSize::Word, Value::Word(0x8000));
    assert_eq!(sum, Value::Word(0));
    assert_eq!(cc, flags(true, false, true, true, true));
    let (sum, cc) = Value::LongWord(0xffff_ffff).add_cc(DataSize::LongWord, Value::LongWord(2));
    assert_eq!(sum, Value::LongWord(1));
    assert_eq!(cc, flags(true, false, false, false, true));
    let (sum, cc) = Value::LongWord(1).add_cc(DataSize::LongWord, Value::LongWord(2));
    assert_eq!(sum, Value::LongWord(3));
    assert_eq!(cc, flags(false, false, false, false, false));
}

#[test]
fn add_brings_the_other_operand_to_the_size() {
    let (sum, cc) = Value::LongWord(0x1234_56f0).add_cc(DataSize::Byte, Value::Word(0x0111));
    assert_eq!(sum, Value::Byte(0x01));
    assert_eq!(cc, flags(true, false, false, false, true));
}

#[test]
fn sub_sets_borrow() {
    let (difference, cc) = Value::Byte(0).sub_cc(DataSize::Byte, Value::Byte(1));
    assert_eq!(difference, Value::Byte(0xff));
    assert_eq!(cc, flags(true, true, false, false, true));
}

#[test]
fn sub_sets_overflow() {
    let (difference, cc) = Value::Byte(0x80).sub_cc(DataSize::Byte, Value::Byte(1));
    assert_eq!(difference, Value::Byte(0x7f));
    assert_eq!(cc, flags(false, false, false, true, false));
    let (difference, cc) = Value::Word(0x7fff).sub_cc(DataSize::Word, Value::Word(0xffff));
    assert_eq!(difference, Value::Word(0x8000));
    assert_eq!(cc, flags(true, true, false, true, true));
}

#[test]
fn sub_of_equal_operands_is_zero() {
    let (difference, cc) =
        Value::LongWord(0x8000_0000).sub_cc(DataSize::LongWord, Value::LongWord(0x8000_0000));
    assert_eq!(difference, Value::LongWord(0));
    assert_eq!(cc, flags(false, false, true, false, false));
}

#[test]
fn logical_operations_keep_the_size_and_clear_v_and_c() {
    let (r, cc) = Value::Word(0xff00).eor_cc(DataSize::Word, Value::Word(0x0ff0));
    assert_eq!(r, Value::Word(0xf0f0));
    assert_eq!(cc, flags(false, true, false, false, false));
    let (r, cc) = Value::LongWord(0xf0).or_cc(DataSize::LongWord, Value::LongWord(0x0f));
    assert_eq!(r, Value::LongWord(0xff));
    assert_eq!(cc, flags(false, false, false, false, false));
    let (r, cc) = Value::Byte(0xf0).and_cc(DataSize::Byte, Value::Byte(0x0f));
    assert_eq!(r, Value::Byte(0));
    assert_eq!(cc, flags(false, false, true, false, false));
    let (r, cc) = Value::Byte(0x81).eor_cc(DataSize::Byte, Value::Byte(0x81));
    assert_eq!(r, Value::Byte(0));
    assert_eq!(cc, flags(false, false, true, false, false));
    let (r, _) = Value::LongWord(0x1234_5678).or_cc(DataSize::Byte, Value::Byte(0x01));
    assert_eq!(r, Value::Byte(0x79));
}

#[test]
fn shift_left_gives_the_last_bit_out() {
    let (r, cc) = shift_left(DataSize::Byte, 1, Value::Byte(0x81));
    assert_eq!(r, Value::Byte(0x02));
    assert_eq!(cc, flags(true, false, false, false, true));
    let (r, cc) = shift_left(DataSize::Byte, 8, Value::Byte(0x01));
    assert_eq!(r, Value::Byte(0));
    assert_eq!(cc, flags(true, false, true, false, true));
    let (r, cc) = shift_left(DataSize::Byte, 9, Value::Byte(0xff));
    assert_eq!(r, Value::Byte(0));
    assert_eq!(cc, flags(false, false, true, false, false));
    let (r, cc) = shift_left(DataSize::Word, 3, Value::Word(0x1001));
    assert_eq!(r, Value::Word(0x8008));
    assert_eq!(cc, flags(false, true, false, false, false));
    let (r, cc) = shift_left(DataSize::LongWord, 32, Value::LongWord(0xffff_ffff));
    assert_eq!(r, Value::LongWord(0));
    assert_eq!(cc, flags(true, false, true, false, true));
    let (r, cc) = shift_left(DataSize::LongWord, 63, Value::LongWord(0xffff_ffff));
    assert_eq!(r, Value::LongWord(0));
    assert_eq!(cc, flags(false, false, true, false, false));
}

#[test]
fn shift_right_gives_the_last_bit_out() {
    let (r, cc) = shift_right(DataSize::Byte, 1, Value::Byte(0x81));
    assert_eq!(r, Value::Byte(0x40));
    assert_eq!(cc, flags(true, false, false, false, true));
    let (r, cc) = shift_right(DataSize::Word, 8, Value::Word(0x8000));
    assert_eq!(r, Value::Word(0x0080));
    assert_eq!(cc, flags(false, false, false, false, false));
    let (r, cc) = shift_right(DataSize::Word, 16, Value::Word(0x8000));
    assert_eq!(r, Value::Word(0));
    assert_eq!(cc, flags(true, false, true, false, true));
    let (r, cc) = shift_right(DataSize::LongWord, 33, Value::LongWord(0xffff_ffff));
    assert_eq!(r, Value::LongWord(0));
    assert_eq!(cc, flags(false, false, true, false, false));
    let (r, cc) = shift_right(DataSize::LongWord, 4_000_000_000, Value::LongWord(0xffff_ffff));
    assert_eq!(r, Value::LongWord(0));
    assert_eq!(cc, flags(false, false, true, false, false));
}

#[test]
fn shift_by_zero_changes_nothing() {
    let (r, cc) = shift_left(DataSize::Word, 0, Value::Word(0x8001));
    assert_eq!(r, Value::Word(0x8001));
    assert_eq!(cc, flags(false, true, false, false, false));
    let (r, cc) = shift_right(DataSize::Word, 0, Value::Word(0x0001));
    assert_eq!(r, Value::Word(0x0001));
    assert_eq!(cc, flags(false, false, false, false, false));
}

#[test]
fn sign_and_zero_at_a_size() {
    assert!(is_negative(DataSize::Byte, Value::LongWord(0x80)));
    assert!(!is_negative(DataSize::Word, Value::LongWord(0x80)));
    assert!(is_zero(DataSize::Byte, Value::LongWord(0x100)));
    assert!(!is_zero(DataSize::Word, Value::LongWord(0x100)));
}

#[test]
fn values_convert_into_integers() {
    let wide: u32 = Value::Word(0xfffe).into();
    assert_eq!(wide, 0xfffe);
    let word: u16 = Value::LongWord(0x1234_5678).into();
    assert_eq!(word, 0x5678);
    let byte: u8 = Value::Word(0x1234).into();
    assert_eq!(byte, 0x34);
    let signed: i32 = Value::Word(0xfffe).into();
    assert_eq!(signed, -2);
    assert_eq!(i32::from(Value::LongWord(0x8000_0000)), i32::MIN);
}

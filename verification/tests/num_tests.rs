use lib::num::{BitLength, BitState, Integer, NumCast};

#[test]
fn test_bit_lengths() {
    assert_eq!(u8::BIT_LENGTH, 8);
    assert_eq!(u16::BIT_LENGTH, 16);
    assert_eq!(u32::BIT_LENGTH, 32);
    assert_eq!(u64::BIT_LENGTH, 64);
    assert_eq!(u128::BIT_LENGTH, 128);

    assert_eq!(i8::BIT_LENGTH, 8);
    assert_eq!(i16::BIT_LENGTH, 16);
    assert_eq!(i32::BIT_LENGTH, 32);
    assert_eq!(i64::BIT_LENGTH, 64);
    assert_eq!(i128::BIT_LENGTH, 128);
}

#[test]
fn test_get_set_unset_bit() {
    for i in 0..8 {
        let mut n = 0u8;
        n.set_bit(i);
        assert_eq!(n, 1 << i);
        assert_eq!(BitState::IsSet, n.get_bit(i));
        n.unset_bit(i);
        assert_eq!(BitState::Unset, n.get_bit(i));
    }
}

#[test]
fn test_get_set_bits() {
    let mut n = 0u16;
    n.set_bits(0..3, 0b101);
    assert_eq!(n, 0b101);
    assert_eq!(0b101, n.get_bits(0..3));

    let n = 0b11011u32;
    assert_eq!(0b110, n.get_bits(2..5));
}

#[test]
fn test_cast() {
    assert_eq!(32i16.to_usize(), 32usize);
    assert_eq!(12usize.to_i16(), 12i16);
}

#[test]
fn set_bit_keeps_other_bits() {
    let mut n = 0b1010_0000u8;
    n.set_bit(1);
    assert_eq!(n, 0b1010_0010);
    n.unset_bit(7);
    assert_eq!(n, 0b0010_0010);
}

#[test]
fn set_bits_reads_back_and_keeps_the_rest() {
    let mut n = 0xffff_ffffu32;
    n.set_bits(8..16, 0x12);
    assert_eq!(n.get_bits(8..16), 0x12);
    assert_eq!(n, 0xffff_12ff);
}

#[test]
fn signed_bits() {
    let mut n = -1i8;
    n.unset_bit(7);
    assert_eq!(n, 127);
    assert_eq!(n.get_bit(6), BitState::IsSet);
}

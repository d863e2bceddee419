//! Generic bit-level and conversion operations on the integer types.
use vstd::prelude::*;
use crate::bits;

verus! {

/// Whether a bit is set.
#[derive(Debug, Clone, Copy, PartialEq, Eq, Structural)]
pub enum BitState {
    IsSet,
    Unset,
}

/// The state of a bit given as a boolean.
pub open spec fn bit_state(b: bool) -> BitState {
    if b { BitState::IsSet } else { BitState::Unset }
}

/// Number of bits in an integer type.
pub trait BitLength {
    const BIT_LENGTH: usize;
}

/// The bit lengths of the fixed-size integer types.
pub proof fn lemma_bit_lengths()
    ensures
        <u8 as BitLength>::BIT_LENGTH == 8,
        <u16 as BitLength>::BIT_LENGTH == 16,
        <u32 as BitLength>::BIT_LENGTH == 32,
        <u64 as BitLength>::BIT_LENGTH == 64,
        <u128 as BitLength>::BIT_LENGTH == 128,
        <i8 as BitLength>::BIT_LENGTH == 8,
        <i16 as BitLength>::BIT_LENGTH == 16,
        <i32 as BitLength>::BIT_LENGTH == 32,
        <i64 as BitLength>::BIT_LENGTH == 64,
        <i128 as BitLength>::BIT_LENGTH == 128,
{
}

/// Lossy conversions between integer types, with the semantics of `as`.
pub trait NumCast: Sized {
    spec fn spec_to_u8(self) -> u8;

    fn to_u8(&self) -> (r: u8)
        ensures
            r == (*self).spec_to_u8(),
    ;

    spec fn spec_to_u16(self) -> u16;

    fn to_u16(&self) -> (r: u16)
        ensures
            r == (*self).spec_to_u16(),
    ;

    spec fn spec_to_i16(self) -> i16;

    fn to_i16(&self) -> (r: i16)
        ensures
            r == (*self).spec_to_i16(),
    ;

    spec fn spec_to_u32(self) -> u32;

    fn to_u32(&self) -> (r: u32)
        ensures
            r == (*self).spec_to_u32(),
    ;

    spec fn spec_to_u64(self) -> u64;

    fn to_u64(&self) -> (r: u64)
        ensures
            r == (*self).spec_to_u64(),
    ;

    spec fn spec_to_u128(self) -> u128;

    fn to_u128(&self) -> (r: u128)
        ensures
            r == (*self).spec_to_u128(),
    ;

    spec fn spec_to_i128(self) -> i128;

    fn to_i128(&self) -> (r: i128)
        ensures
            r == (*self).spec_to_i128(),
    ;

    spec fn spec_to_usize(self) -> usize;

    fn to_usize(&self) -> (r: usize)
        ensures
            r == (*self).spec_to_usize(),
    ;

}

/// Bit operations on integers; bit 0 is the least significant bit.
///
/// Bits are numbered in the two's complement representation, so a signed value
/// is read and written through the unsigned value with the same bits.
pub trait Integer: BitLength + NumCast + Sized + Copy {
    /// Bit `i` of the value.
    spec fn spec_bit(self, i: usize) -> bool;

    /// The value with bit `i` replaced by `b`.
    spec fn spec_with_bit(self, i: usize, b: bool) -> Self;

    /// The bits `start..end`, shifted down to bit 0.
    spec fn spec_bits(self, start: usize, end: usize) -> Self;

    /// Whether `value` can be stored in `width` bits.
    spec fn spec_fits(value: Self, width: usize) -> bool;

    /// The value with bits `start..end` replaced by the low bits of `value`.
    spec fn spec_with_bits(self, start: usize, end: usize, value: Self) -> Self;

    /// Sets bit `i`.
    fn set_bit(&mut self, i: usize)
        requires
            i < Self::BIT_LENGTH,
        ensures
            *final(self) == (*old(self)).spec_with_bit(i, true),
    ;

    /// Clears bit `i`.
    fn unset_bit(&mut self, i: usize)
        requires
            i < Self::BIT_LENGTH,
        ensures
            *final(self) == (*old(self)).spec_with_bit(i, false),
    ;

    /// Reads bit `i`.
    fn get_bit(&self, i: usize) -> (r: BitState)
        requires
            i < Self::BIT_LENGTH,
        ensures
            r == bit_state((*self).spec_bit(i)),
    ;

    /// Replaces the bits in `range` by `value`, which must fit in them.
    fn set_bits(&mut self, range: core::ops::Range<usize>, value: Self)
        requires
            range.start < range.end <= Self::BIT_LENGTH,
            Self::spec_fits(value, (range.end - range.start) as usize),
        ensures
            *final(self) == (*old(self)).spec_with_bits(range.start, range.end, value),
    ;

    /// Reads the bits in `range`, shifted down to bit 0.
    fn get_bits(&self, range: core::ops::Range<usize>) -> (r: Self)
        requires
            range.start < range.end <= Self::BIT_LENGTH,
        ensures
            r == (*self).spec_bits(range.start, range.end),
    ;
}

impl BitLength for u8 {
    const BIT_LENGTH: usize = 8;
}

impl NumCast for u8 {
    open spec fn spec_to_u8(self) -> u8 {
        self as u8
    }

    fn to_u8(&self) -> (r: u8) {
        *self as u8
    }

    open spec fn spec_to_u16(self) -> u16 {
        self as u16
    }

    fn to_u16(&self) -> (r: u16) {
        *self as u16
    }

    open spec fn spec_to_i16(self) -> i16 {
        self as i16
    }

    fn to_i16(&self) -> (r: i16) {
        *self as i16
    }

    open spec fn spec_to_u32(self) -> u32 {
        self as u32
    }

    fn to_u32(&self) -> (r: u32) {
        *self as u32
    }

    open spec fn spec_to_u64(self) -> u64 {
        self as u64
    }

    fn to_u64(&self) -> (r: u64) {
        *self as u64
    }

    open spec fn spec_to_u128(self) -> u128 {
        self as u128
    }

    fn to_u128(&self) -> (r: u128) {
        *self as u128
    }

    open spec fn spec_to_i128(self) -> i128 {
        self as i128
    }

    fn to_i128(&self) -> (r: i128) {
        *self as i128
    }

    open spec fn spec_to_usize(self) -> usize {
        self as usize
    }

    fn to_usize(&self) -> (r: usize) {
        *self as usize
    }

}

impl Integer for u8 {
    open spec fn spec_bit(self, i: usize) -> bool {
        bits::bit_u8(self as u8, i as u8)
    }

    open spec fn spec_with_bit(self, i: usize, b: bool) -> u8 {
        bits::with_bit_u8(self as u8, i as u8, b) as u8
    }

    open spec fn spec_bits(self, start: usize, end: usize) -> u8 {
        bits::field_u8(self as u8, start as u8, (end - start) as u8) as u8
    }

    open spec fn spec_fits(value: u8, width: usize) -> bool {
        value <= bits::mask_u8(width as u8)
    }

    open spec fn spec_with_bits(self, start: usize, end: usize, value: u8) -> u8 {
        bits::with_field_u8(self as u8, start as u8, (end - start) as u8, value as u8) as u8
    }

    fn set_bit(&mut self, i: usize) {
        *self = bits::put_bit_u8(*self as u8, i as u8, true) as u8;
    }

    fn unset_bit(&mut self, i: usize) {
        *self = bits::put_bit_u8(*self as u8, i as u8, false) as u8;
    }

    fn get_bit(&self, i: usize) -> (r: BitState) {
        if bits::get_bit_u8(*self as u8, i as u8) {
            BitState::IsSet
        } else {
            BitState::Unset
        }
    }

    fn set_bits(&mut self, range: core::ops::Range<usize>, value: u8) {
        *self = bits::put_field_u8(*self as u8, range.start as u8, (range.end - range.start) as u8, value as u8) as u8;
    }

    fn get_bits(&self, range: core::ops::Range<usize>) -> (r: u8) {
        bits::get_field_u8(*self as u8, range.start as u8, (range.end - range.start) as u8) as u8
    }
}

impl BitLength for u16 {
    const BIT_LENGTH: usize = 16;
}

impl NumCast for u16 {
    open spec fn spec_to_u8(self) -> u8 {
        self as u8
    }

    fn to_u8(&self) -> (r: u8) {
        *self as u8
    }

    open spec fn spec_to_u16(self) -> u16 {
        self as u16
    }

    fn to_u16(&self) -> (r: u16) {
        *self as u16
    }

    open spec fn spec_to_i16(self) -> i16 {
        self as i16
    }

    fn to_i16(&self) -> (r: i16) {
        *self as i16
    }

    open spec fn spec_to_u32(self) -> u32 {
        self as u32
    }

    fn to_u32(&self) -> (r: u32) {
        *self as u32
    }

    open spec fn spec_to_u64(self) -> u64 {
        self as u64
    }

    fn to_u64(&self) -> (r: u64) {
        *self as u64
    }

    open spec fn spec_to_u128(self) -> u128 {
        self as u128
    }

    fn to_u128(&self) -> (r: u128) {
        *self as u128
    }

    open spec fn spec_to_i128(self) -> i128 {
        self as i128
    }

    fn to_i128(&self) -> (r: i128) {
        *self as i128
    }

    open spec fn spec_to_usize(self) -> usize {
        self as usize
    }

    fn to_usize(&self) -> (r: usize) {
        *self as usize
    }

}

impl Integer for u16 {
    open spec fn spec_bit(self, i: usize) -> bool {
        bits::bit_u16(self as u16, i as u16)
    }

    open spec fn spec_with_bit(self, i: usize, b: bool) -> u16 {
        bits::with_bit_u16(self as u16, i as u16, b) as u16
    }

    open spec fn spec_bits(self, start: usize, end: usize) -> u16 {
        bits::field_u16(self as u16, start as u16, (end - start) as u16) as u16
    }

    open spec fn spec_fits(value: u16, width: usize) -> bool {
        value <= bits::mask_u16(width as u16)
    }

    open spec fn spec_with_bits(self, start: usize, end: usize, value: u16) -> u16 {
        bits::with_field_u16(self as u16, start as u16, (end - start) as u16, value as u16) as u16
    }

    fn set_bit(&mut self, i: usize) {
        *self = bits::put_bit_u16(*self as u16, i as u16, true) as u16;
    }

    fn unset_bit(&mut self, i: usize) {
        *self = bits::put_bit_u16(*self as u16, i as u16, false) as u16;
    }

    fn get_bit(&self, i: usize) -> (r: BitState) {
        if bits::get_bit_u16(*self as u16, i as u16) {
            BitState::IsSet
        } else {
            BitState::Unset
        }
    }

    fn set_bits(&mut self, range: core::ops::Range<usize>, value: u16) {
        *self = bits::put_field_u16(*self as u16, range.start as u16, (range.end - range.start) as u16, value as u16) as u16;
    }

    fn get_bits(&self, range: core::ops::Range<usize>) -> (r: u16) {
        bits::get_field_u16(*self as u16, range.start as u16, (range.end - range.start) as u16) as u16
    }
}

impl BitLength for u32 {
    const BIT_LENGTH: usize = 32;
}

impl NumCast for u32 {
    open spec fn spec_to_u8(self) -> u8 {
        self as u8
    }

    fn to_u8(&self) -> (r: u8) {
        *self as u8
    }

    open spec fn spec_to_u16(self) -> u16 {
        self as u16
    }

    fn to_u16(&self) -> (r: u16) {
        *self as u16
    }

    open spec fn spec_to_i16(self) -> i16 {
        self as i16
    }

    fn to_i16(&self) -> (r: i16) {
        *self as i16
    }

    open spec fn spec_to_u32(self) -> u32 {
        self as u32
    }

    fn to_u32(&self) -> (r: u32) {
        *self as u32
    }

    open spec fn spec_to_u64(self) -> u64 {
        self as u64
    }

    fn to_u64(&self) -> (r: u64) {
        *self as u64
    }

    open spec fn spec_to_u128(self) -> u128 {
        self as u128
    }

    fn to_u128(&self) -> (r: u128) {
        *self as u128
    }

    open spec fn spec_to_i128(self) -> i128 {
        self as i128
    }

    fn to_i128(&self) -> (r: i128) {
        *self as i128
    }

    open spec fn spec_to_usize(self) -> usize {
        self as usize
    }

    fn to_usize(&self) -> (r: usize) {
        *self as usize
    }

}

impl Integer for u32 {
    open spec fn spec_bit(self, i: usize) -> bool {
        bits::bit_u32(self as u32, i as u32)
    }

    open spec fn spec_with_bit(self, i: usize, b: bool) -> u32 {
        bits::with_bit_u32(self as u32, i as u32, b) as u32
    }

    open spec fn spec_bits(self, start: usize, end: usize) -> u32 {
        bits::field_u32(self as u32, start as u32, (end - start) as u32) as u32
    }

    open spec fn spec_fits(value: u32, width: usize) -> bool {
        value <= bits::mask_u32(width as u32)
    }

    open spec fn spec_with_bits(self, start: usize, end: usize, value: u32) -> u32 {
        bits::with_field_u32(self as u32, start as u32, (end - start) as u32, value as u32) as u32
    }

    fn set_bit(&mut self, i: usize) {
        *self = bits::put_bit_u32(*self as u32, i as u32, true) as u32;
    }

    fn unset_bit(&mut self, i: usize) {
        *self = bits::put_bit_u32(*self as u32, i as u32, false) as u32;
    }

    fn get_bit(&self, i: usize) -> (r: BitState) {
        if bits::get_bit_u32(*self as u32, i as u32) {
            BitState::IsSet
        } else {
            BitState::Unset
        }
    }

    fn set_bits(&mut self, range: core::ops::Range<usize>, value: u32) {
        *self = bits::put_field_u32(*self as u32, range.start as u32, (range.end - range.start) as u32, value as u32) as u32;
    }

    fn get_bits(&self, range: core::ops::Range<usize>) -> (r: u32) {
        bits::get_field_u32(*self as u32, range.start as u32, (range.end - range.start) as u32) as u32
    }
}

impl BitLength for u64 {
    const BIT_LENGTH: usize = 64;
}

impl NumCast for u64 {
    open spec fn spec_to_u8(self) -> u8 {
        self as u8
    }

    fn to_u8(&self) -> (r: u8) {
        *self as u8
    }

    open spec fn spec_to_u16(self) -> u16 {
        self as u16
    }

    fn to_u16(&self) -> (r: u16) {
        *self as u16
    }

    open spec fn spec_to_i16(self) -> i16 {
        self as i16
    }

    fn to_i16(&self) -> (r: i16) {
        *self as i16
    }

    open spec fn spec_to_u32(self) -> u32 {
        self as u32
    }

    fn to_u32(&self) -> (r: u32) {
        *self as u32
    }

    open spec fn spec_to_u64(self) -> u64 {
        self as u64
    }

    fn to_u64(&self) -> (r: u64) {
        *self as u64
    }

    open spec fn spec_to_u128(self) -> u128 {
        self as u128
    }

    fn to_u128(&self) -> (r: u128) {
        *self as u128
    }

    open spec fn spec_to_i128(self) -> i128 {
        self as i128
    }

    fn to_i128(&self) -> (r: i128) {
        *self as i128
    }

    open spec fn spec_to_usize(self) -> usize {
        self as usize
    }

    fn to_usize(&self) -> (r: usize) {
        *self as usize
    }

}

impl Integer for u64 {
    open spec fn spec_bit(self, i: usize) -> bool {
        bits::bit_u64(self as u64, i as u64)
    }

    open spec fn spec_with_bit(self, i: usize, b: bool) -> u64 {
        bits::with_bit_u64(self as u64, i as u64, b) as u64
    }

    open spec fn spec_bits(self, start: usize, end: usize) -> u64 {
        bits::field_u64(self as u64, start as u64, (end - start) as u64) as u64
    }

    open spec fn spec_fits(value: u64, width: usize) -> bool {
        value <= bits::mask_u64(width as u64)
    }

    open spec fn spec_with_bits(self, start: usize, end: usize, value: u64) -> u64 {
        bits::with_field_u64(self as u64, start as u64, (end - start) as u64, value as u64) as u64
    }

    fn set_bit(&mut self, i: usize) {
        *self = bits::put_bit_u64(*self as u64, i as u64, true) as u64;
    }

    fn unset_bit(&mut self, i: usize) {
        *self = bits::put_bit_u64(*self as u64, i as u64, false) as u64;
    }

    fn get_bit(&self, i: usize) -> (r: BitState) {
        if bits::get_bit_u64(*self as u64, i as u64) {
            BitState::IsSet
        } else {
            BitState::Unset
        }
    }

    fn set_bits(&mut self, range: core::ops::Range<usize>, value: u64) {
        *self = bits::put_field_u64(*self as u64, range.start as u64, (range.end - range.start) as u64, value as u64) as u64;
    }

    fn get_bits(&self, range: core::ops::Range<usize>) -> (r: u64) {
        bits::get_field_u64(*self as u64, range.start as u64, (range.end - range.start) as u64) as u64
    }
}

impl BitLength for u128 {
    const BIT_LENGTH: usize = 128;
}

impl NumCast for u128 {
    open spec fn spec_to_u8(self) -> u8 {
        self as u8
    }

    fn to_u8(&self) -> (r: u8) {
        *self as u8
    }

    open spec fn spec_to_u16(self) -> u16 {
        self as u16
    }

    fn to_u16(&self) -> (r: u16) {
        *self as u16
    }

    open spec fn spec_to_i16(self) -> i16 {
        self as i16
    }

    fn to_i16(&self) -> (r: i16) {
        *self as i16
    }

    open spec fn spec_to_u32(self) -> u32 {
        self as u32
    }

    fn to_u32(&self) -> (r: u32) {
        *self as u32
    }

    open spec fn spec_to_u64(self) -> u64 {
        self as u64
    }

    fn to_u64(&self) -> (r: u64) {
        *self as u64
    }

    open spec fn spec_to_u128(self) -> u128 {
        self as u128
    }

    fn to_u128(&self) -> (r: u128) {
        *self as u128
    }

    open spec fn spec_to_i128(self) -> i128 {
        self as i128
    }

    fn to_i128(&self) -> (r: i128) {
        *self as i128
    }

    open spec fn spec_to_usize(self) -> usize {
        self as usize
    }

    fn to_usize(&self) -> (r: usize) {
        *self as usize
    }

}

impl Integer for u128 {
    open spec fn spec_bit(self, i: usize) -> bool {
        bits::bit_u128(self as u128, i as u128)
    }

    open spec fn spec_with_bit(self, i: usize, b: bool) -> u128 {
        bits::with_bit_u128(self as u128, i as u128, b) as u128
    }

    open spec fn spec_bits(self, start: usize, end: usize) -> u128 {
        bits::field_u128(self as u128, start as u128, (end - start) as u128) as u128
    }

    open spec fn spec_fits(value: u128, width: usize) -> bool {
        value <= bits::mask_u128(width as u128)
    }

    open spec fn spec_with_bits(self, start: usize, end: usize, value: u128) -> u128 {
        bits::with_field_u128(self as u128, start as u128, (end - start) as u128, value as u128) as u128
    }

    fn set_bit(&mut self, i: usize) {
        *self = bits::put_bit_u128(*self as u128, i as u128, true) as u128;
    }

    fn unset_bit(&mut self, i: usize) {
        *self = bits::put_bit_u128(*self as u128, i as u128, false) as u128;
    }

    fn get_bit(&self, i: usize) -> (r: BitState) {
        if bits::get_bit_u128(*self as u128, i as u128) {
            BitState::IsSet
        } else {
            BitState::Unset
        }
    }

    fn set_bits(&mut self, range: core::ops::Range<usize>, value: u128) {
        *self = bits::put_field_u128(*self as u128, range.start as u128, (range.end - range.start) as u128, value as u128) as u128;
    }

    fn get_bits(&self, range: core::ops::Range<usize>) -> (r: u128) {
        bits::get_field_u128(*self as u128, range.start as u128, (range.end - range.start) as u128) as u128
    }
}

impl BitLength for usize {
    const BIT_LENGTH: usize = usize::BITS as usize;
}

impl NumCast for usize {
    open spec fn spec_to_u8(self) -> u8 {
        self as u8
    }

    fn to_u8(&self) -> (r: u8) {
        *self as u8
    }

    open spec fn spec_to_u16(self) -> u16 {
        self as u16
    }

    fn to_u16(&self) -> (r: u16) {
        *self as u16
    }

    open spec fn spec_to_i16(self) -> i16 {
        self as i16
    }

    fn to_i16(&self) -> (r: i16) {
        *self as i16
    }

    open spec fn spec_to_u32(self) -> u32 {
        self as u32
    }

    fn to_u32(&self) -> (r: u32) {
        *self as u32
    }

    open spec fn spec_to_u64(self) -> u64 {
        self as u64
    }

    fn to_u64(&self) -> (r: u64) {
        *self as u64
    }

    open spec fn spec_to_u128(self) -> u128 {
        self as u128
    }

    fn to_u128(&self) -> (r: u128) {
        *self as u128
    }

    open spec fn spec_to_i128(self) -> i128 {
        self as i128
    }

    fn to_i128(&self) -> (r: i128) {
        *self as i128
    }

    open spec fn spec_to_usize(self) -> usize {
        self as usize
    }

    fn to_usize(&self) -> (r: usize) {
        *self as usize
    }

}

impl Integer for usize {
    open spec fn spec_bit(self, i: usize) -> bool {
        bits::bit_u64(self as u64, i as u64)
    }

    open spec fn spec_with_bit(self, i: usize, b: bool) -> usize {
        bits::with_bit_u64(self as u64, i as u64, b) as usize
    }

    open spec fn spec_bits(self, start: usize, end: usize) -> usize {
        bits::field_u64(self as u64, start as u64, (end - start) as u64) as usize
    }

    open spec fn spec_fits(value: usize, width: usize) -> bool {
        value <= bits::mask_u64(width as u64)
    }

    open spec fn spec_with_bits(self, start: usize, end: usize, value: usize) -> usize {
        bits::with_field_u64(self as u64, start as u64, (end - start) as u64, value as u64) as usize
    }

    fn set_bit(&mut self, i: usize) {
        *self = bits::put_bit_u64(*self as u64, i as u64, true) as usize;
    }

    fn unset_bit(&mut self, i: usize) {
        *self = bits::put_bit_u64(*self as u64, i as u64, false) as usize;
    }

    fn get_bit(&self, i: usize) -> (r: BitState) {
        if bits::get_bit_u64(*self as u64, i as u64) {
            BitState::IsSet
        } else {
            BitState::Unset
        }
    }

    fn set_bits(&mut self, range: core::ops::Range<usize>, value: usize) {
        *self = bits::put_field_u64(*self as u64, range.start as u64, (range.end - range.start) as u64, value as u64) as usize;
    }

    fn get_bits(&self, range: core::ops::Range<usize>) -> (r: usize) {
        bits::get_field_u64(*self as u64, range.start as u64, (range.end - range.start) as u64) as usize
    }
}

impl BitLength for i8 {
    const BIT_LENGTH: usize = 8;
}

impl NumCast for i8 {
    open spec fn spec_to_u8(self) -> u8 {
        self as u8
    }

    fn to_u8(&self) -> (r: u8) {
        *self as u8
    }

    open spec fn spec_to_u16(self) -> u16 {
        self as u16
    }

    fn to_u16(&self) -> (r: u16) {
        *self as u16
    }

    open spec fn spec_to_i16(self) -> i16 {
        self as i16
    }

    fn to_i16(&self) -> (r: i16) {
        *self as i16
    }

    open spec fn spec_to_u32(self) -> u32 {
        self as u32
    }

    fn to_u32(&self) -> (r: u32) {
        *self as u32
    }

    open spec fn spec_to_u64(self) -> u64 {
        self as u64
    }

    fn to_u64(&self) -> (r: u64) {
        *self as u64
    }

    open spec fn spec_to_u128(self) -> u128 {
        self as u128
    }

    fn to_u128(&self) -> (r: u128) {
        *self as u128
    }

    open spec fn spec_to_i128(self) -> i128 {
        self as i128
    }

    fn to_i128(&self) -> (r: i128) {
        *self as i128
    }

    open spec fn spec_to_usize(self) -> usize {
        self as usize
    }

    fn to_usize(&self) -> (r: usize) {
        *self as usize
    }

}

impl Integer for i8 {
    open spec fn spec_bit(self, i: usize) -> bool {
        bits::bit_u8(self as u8, i as u8)
    }

    open spec fn spec_with_bit(self, i: usize, b: bool) -> i8 {
        bits::with_bit_u8(self as u8, i as u8, b) as i8
    }

    open spec fn spec_bits(self, start: usize, end: usize) -> i8 {
        bits::field_u8(self as u8, start as u8, (end - start) as u8) as i8
    }

    open spec fn spec_fits(value: i8, width: usize) -> bool {
        -pow_half_i8(width) <= value < pow_half_i8(width)
    }

    open spec fn spec_with_bits(self, start: usize, end: usize, value: i8) -> i8 {
        bits::with_field_u8(self as u8, start as u8, (end - start) as u8, value as u8) as i8
    }

    fn set_bit(&mut self, i: usize) {
        *self = bits::put_bit_u8(*self as u8, i as u8, true) as i8;
    }

    fn unset_bit(&mut self, i: usize) {
        *self = bits::put_bit_u8(*self as u8, i as u8, false) as i8;
    }

    fn get_bit(&self, i: usize) -> (r: BitState) {
        if bits::get_bit_u8(*self as u8, i as u8) {
            BitState::IsSet
        } else {
            BitState::Unset
        }
    }

    fn set_bits(&mut self, range: core::ops::Range<usize>, value: i8) {
        *self = bits::put_field_u8(*self as u8, range.start as u8, (range.end - range.start) as u8, value as u8) as i8;
    }

    fn get_bits(&self, range: core::ops::Range<usize>) -> (r: i8) {
        bits::get_field_u8(*self as u8, range.start as u8, (range.end - range.start) as u8) as i8
    }
}

/// Half of the number of values that `width` bits can hold: the bound of a
/// signed value stored in that many bits.
pub open spec fn pow_half_i8(width: usize) -> int {
    if width == 0 { 0 } else { vstd::arithmetic::power2::pow2((width - 1) as nat) as int }
}

impl BitLength for i16 {
    const BIT_LENGTH: usize = 16;
}

impl NumCast for i16 {
    open spec fn spec_to_u8(self) -> u8 {
        self as u8
    }

    fn to_u8(&self) -> (r: u8) {
        *self as u8
    }

    open spec fn spec_to_u16(self) -> u16 {
        self as u16
    }

    fn to_u16(&self) -> (r: u16) {
        *self as u16
    }

    open spec fn spec_to_i16(self) -> i16 {
        self as i16
    }

    fn to_i16(&self) -> (r: i16) {
        *self as i16
    }

    open spec fn spec_to_u32(self) -> u32 {
        self as u32
    }

    fn to_u32(&self) -> (r: u32) {
        *self as u32
    }

    open spec fn spec_to_u64(self) -> u64 {
        self as u64
    }

    fn to_u64(&self) -> (r: u64) {
        *self as u64
    }

    open spec fn spec_to_u128(self) -> u128 {
        self as u128
    }

    fn to_u128(&self) -> (r: u128) {
        *self as u128
    }

    open spec fn spec_to_i128(self) -> i128 {
        self as i128
    }

    fn to_i128(&self) -> (r: i128) {
        *self as i128
    }

    open spec fn spec_to_usize(self) -> usize {
        self as usize
    }

    fn to_usize(&self) -> (r: usize) {
        *self as usize
    }

}

impl Integer for i16 {
    open spec fn spec_bit(self, i: usize) -> bool {
        bits::bit_u16(self as u16, i as u16)
    }

    open spec fn spec_with_bit(self, i: usize, b: bool) -> i16 {
        bits::with_bit_u16(self as u16, i as u16, b) as i16
    }

    open spec fn spec_bits(self, start: usize, end: usize) -> i16 {
        bits::field_u16(self as u16, start as u16, (end - start) as u16) as i16
    }

    open spec fn spec_fits(value: i16, width: usize) -> bool {
        -pow_half_i16(width) <= value < pow_half_i16(width)
    }

    open spec fn spec_with_bits(self, start: usize, end: usize, value: i16) -> i16 {
        bits::with_field_u16(self as u16, start as u16, (end - start) as u16, value as u16) as i16
    }

    fn set_bit(&mut self, i: usize) {
        *self = bits::put_bit_u16(*self as u16, i as u16, true) as i16;
    }

    fn unset_bit(&mut self, i: usize) {
        *self = bits::put_bit_u16(*self as u16, i as u16, false) as i16;
    }

    fn get_bit(&self, i: usize) -> (r: BitState) {
        if bits::get_bit_u16(*self as u16, i as u16) {
            BitState::IsSet
        } else {
            BitState::Unset
        }
    }

    fn set_bits(&mut self, range: core::ops::Range<usize>, value: i16) {
        *self = bits::put_field_u16(*self as u16, range.start as u16, (range.end - range.start) as u16, value as u16) as i16;
    }

    fn get_bits(&self, range: core::ops::Range<usize>) -> (r: i16) {
        bits::get_field_u16(*self as u16, range.start as u16, (range.end - range.start) as u16) as i16
    }
}

/// Half of the number of values that `width` bits can hold: the bound of a
/// signed value stored in that many bits.
pub open spec fn pow_half_i16(width: usize) -> int {
    if width == 0 { 0 } else { vstd::arithmetic::power2::pow2((width - 1) as nat) as int }
}

impl BitLength for i32 {
    const BIT_LENGTH: usize = 32;
}

impl NumCast for i32 {
    open spec fn spec_to_u8(self) -> u8 {
        self as u8
    }

    fn to_u8(&self) -> (r: u8) {
        *self as u8
    }

    open spec fn spec_to_u16(self) -> u16 {
        self as u16
    }

    fn to_u16(&self) -> (r: u16) {
        *self as u16
    }

    open spec fn spec_to_i16(self) -> i16 {
        self as i16
    }

    fn to_i16(&self) -> (r: i16) {
        *self as i16
    }

    open spec fn spec_to_u32(self) -> u32 {
        self as u32
    }

    fn to_u32(&self) -> (r: u32) {
        *self as u32
    }

    open spec fn spec_to_u64(self) -> u64 {
        self as u64
    }

    fn to_u64(&self) -> (r: u64) {
        *self as u64
    }

    open spec fn spec_to_u128(self) -> u128 {
        self as u128
    }

    fn to_u128(&self) -> (r: u128) {
        *self as u128
    }

    open spec fn spec_to_i128(self) -> i128 {
        self as i128
    }

    fn to_i128(&self) -> (r: i128) {
        *self as i128
    }

    open spec fn spec_to_usize(self) -> usize {
        self as usize
    }

    fn to_usize(&self) -> (r: usize) {
        *self as usize
    }

}

impl Integer for i32 {
    open spec fn spec_bit(self, i: usize) -> bool {
        bits::bit_u32(self as u32, i as u32)
    }

    open spec fn spec_with_bit(self, i: usize, b: bool) -> i32 {
        bits::with_bit_u32(self as u32, i as u32, b) as i32
    }

    open spec fn spec_bits(self, start: usize, end: usize) -> i32 {
        bits::field_u32(self as u32, start as u32, (end - start) as u32) as i32
    }

    open spec fn spec_fits(value: i32, width: usize) -> bool {
        -pow_half_i32(width) <= value < pow_half_i32(width)
    }

    open spec fn spec_with_bits(self, start: usize, end: usize, value: i32) -> i32 {
        bits::with_field_u32(self as u32, start as u32, (end - start) as u32, value as u32) as i32
    }

    fn set_bit(&mut self, i: usize) {
        *self = bits::put_bit_u32(*self as u32, i as u32, true) as i32;
    }

    fn unset_bit(&mut self, i: usize) {
        *self = bits::put_bit_u32(*self as u32, i as u32, false) as i32;
    }

    fn get_bit(&self, i: usize) -> (r: BitState) {
        if bits::get_bit_u32(*self as u32, i as u32) {
            BitState::IsSet
        } else {
            BitState::Unset
        }
    }

    fn set_bits(&mut self, range: core::ops::Range<usize>, value: i32) {
        *self = bits::put_field_u32(*self as u32, range.start as u32, (range.end - range.start) as u32, value as u32) as i32;
    }

    fn get_bits(&self, range: core::ops::Range<usize>) -> (r: i32) {
        bits::get_field_u32(*self as u32, range.start as u32, (range.end - range.start) as u32) as i32
    }
}

/// Half of the number of values that `width` bits can hold: the bound of a
/// signed value stored in that many bits.
pub open spec fn pow_half_i32(width: usize) -> int {
    if width == 0 { 0 } else { vstd::arithmetic::power2::pow2((width - 1) as nat) as int }
}

impl BitLength for i64 {
    const BIT_LENGTH: usize = 64;
}

impl NumCast for i64 {
    open spec fn spec_to_u8(self) -> u8 {
        self as u8
    }

    fn to_u8(&self) -> (r: u8) {
        *self as u8
    }

    open spec fn spec_to_u16(self) -> u16 {
        self as u16
    }

    fn to_u16(&self) -> (r: u16) {
        *self as u16
    }

    open spec fn spec_to_i16(self) -> i16 {
        self as i16
    }

    fn to_i16(&self) -> (r: i16) {
        *self as i16
    }

    open spec fn spec_to_u32(self) -> u32 {
        self as u32
    }

    fn to_u32(&self) -> (r: u32) {
        *self as u32
    }

    open spec fn spec_to_u64(self) -> u64 {
        self as u64
    }

    fn to_u64(&self) -> (r: u64) {
        *self as u64
    }

    open spec fn spec_to_u128(self) -> u128 {
        self as u128
    }

    fn to_u128(&self) -> (r: u128) {
        *self as u128
    }

    open spec fn spec_to_i128(self) -> i128 {
        self as i128
    }

    fn to_i128(&self) -> (r: i128) {
        *self as i128
    }

    open spec fn spec_to_usize(self) -> usize {
        self as usize
    }

    fn to_usize(&self) -> (r: usize) {
        *self as usize
    }

}

impl Integer for i64 {
    open spec fn spec_bit(self, i: usize) -> bool {
        bits::bit_u64(self as u64, i as u64)
    }

    open spec fn spec_with_bit(self, i: usize, b: bool) -> i64 {
        bits::with_bit_u64(self as u64, i as u64, b) as i64
    }

    open spec fn spec_bits(self, start: usize, end: usize) -> i64 {
        bits::field_u64(self as u64, start as u64, (end - start) as u64) as i64
    }

    open spec fn spec_fits(value: i64, width: usize) -> bool {
        -pow_half_i64(width) <= value < pow_half_i64(width)
    }

    open spec fn spec_with_bits(self, start: usize, end: usize, value: i64) -> i64 {
        bits::with_field_u64(self as u64, start as u64, (end - start) as u64, value as u64) as i64
    }

    fn set_bit(&mut self, i: usize) {
        *self = bits::put_bit_u64(*self as u64, i as u64, true) as i64;
    }

    fn unset_bit(&mut self, i: usize) {
        *self = bits::put_bit_u64(*self as u64, i as u64, false) as i64;
    }

    fn get_bit(&self, i: usize) -> (r: BitState) {
        if bits::get_bit_u64(*self as u64, i as u64) {
            BitState::IsSet
        } else {
            BitState::Unset
        }
    }

    fn set_bits(&mut self, range: core::ops::Range<usize>, value: i64) {
        *self = bits::put_field_u64(*self as u64, range.start as u64, (range.end - range.start) as u64, value as u64) as i64;
    }

    fn get_bits(&self, range: core::ops::Range<usize>) -> (r: i64) {
        bits::get_field_u64(*self as u64, range.start as u64, (range.end - range.start) as u64) as i64
    }
}

/// Half of the number of values that `width` bits can hold: the bound of a
/// signed value stored in that many bits.
pub open spec fn pow_half_i64(width: usize) -> int {
    if width == 0 { 0 } else { vstd::arithmetic::power2::pow2((width - 1) as nat) as int }
}

impl BitLength for i128 {
    const BIT_LENGTH: usize = 128;
}

impl NumCast for i128 {
    open spec fn spec_to_u8(self) -> u8 {
        self as u8
    }

    fn to_u8(&self) -> (r: u8) {
        *self as u8
    }

    open spec fn spec_to_u16(self) -> u16 {
        self as u16
    }

    fn to_u16(&self) -> (r: u16) {
        *self as u16
    }

    open spec fn spec_to_i16(self) -> i16 {
        self as i16
    }

    fn to_i16(&self) -> (r: i16) {
        *self as i16
    }

    open spec fn spec_to_u32(self) -> u32 {
        self as u32
    }

    fn to_u32(&self) -> (r: u32) {
        *self as u32
    }

    open spec fn spec_to_u64(self) -> u64 {
        self as u64
    }

    fn to_u64(&self) -> (r: u64) {
        *self as u64
    }

    open spec fn spec_to_u128(self) -> u128 {
        self as u128
    }

    fn to_u128(&self) -> (r: u128) {
        *self as u128
    }

    open spec fn spec_to_i128(self) -> i128 {
        self as i128
    }

    fn to_i128(&self) -> (r: i128) {
        *self as i128
    }

    open spec fn spec_to_usize(self) -> usize {
        self as usize
    }

    fn to_usize(&self) -> (r: usize) {
        *self as usize
    }

}

impl Integer for i128 {
    open spec fn spec_bit(self, i: usize) -> bool {
        bits::bit_u128(self as u128, i as u128)
    }

    open spec fn spec_with_bit(self, i: usize, b: bool) -> i128 {
        bits::with_bit_u128(self as u128, i as u128, b) as i128
    }

    open spec fn spec_bits(self, start: usize, end: usize) -> i128 {
        bits::field_u128(self as u128, start as u128, (end - start) as u128) as i128
    }

    open spec fn spec_fits(value: i128, width: usize) -> bool {
        -pow_half_i128(width) <= value < pow_half_i128(width)
    }

    open spec fn spec_with_bits(self, start: usize, end: usize, value: i128) -> i128 {
        bits::with_field_u128(self as u128, start as u128, (end - start) as u128, value as u128) as i128
    }

    fn set_bit(&mut self, i: usize) {
        *self = bits::put_bit_u128(*self as u128, i as u128, true) as i128;
    }

    fn unset_bit(&mut self, i: usize) {
        *self = bits::put_bit_u128(*self as u128, i as u128, false) as i128;
    }

    fn get_bit(&self, i: usize) -> (r: BitState) {
        if bits::get_bit_u128(*self as u128, i as u128) {
            BitState::IsSet
        } else {
            BitState::Unset
        }
    }

    fn set_bits(&mut self, range: core::ops::Range<usize>, value: i128) {
        *self = bits::put_field_u128(*self as u128, range.start as u128, (range.end - range.start) as u128, value as u128) as i128;
    }

    fn get_bits(&self, range: core::ops::Range<usize>) -> (r: i128) {
        bits::get_field_u128(*self as u128, range.start as u128, (range.end - range.start) as u128) as i128
    }
}

/// Half of the number of values that `width` bits can hold: the bound of a
/// signed value stored in that many bits.
pub open spec fn pow_half_i128(width: usize) -> int {
    if width == 0 { 0 } else { vstd::arithmetic::power2::pow2((width - 1) as nat) as int }
}

impl BitLength for isize {
    const BIT_LENGTH: usize = usize::BITS as usize;
}

impl NumCast for isize {
    open spec fn spec_to_u8(self) -> u8 {
        self as u8
    }

    fn to_u8(&self) -> (r: u8) {
        *self as u8
    }

    open spec fn spec_to_u16(self) -> u16 {
        self as u16
    }

    fn to_u16(&self) -> (r: u16) {
        *self as u16
    }

    open spec fn spec_to_i16(self) -> i16 {
        self as i16
    }

    fn to_i16(&self) -> (r: i16) {
        *self as i16
    }

    open spec fn spec_to_u32(self) -> u32 {
        self as u32
    }

    fn to_u32(&self) -> (r: u32) {
        *self as u32
    }

    open spec fn spec_to_u64(self) -> u64 {
        self as u64
    }

    fn to_u64(&self) -> (r: u64) {
        *self as u64
    }

    open spec fn spec_to_u128(self) -> u128 {
        self as u128
    }

    fn to_u128(&self) -> (r: u128) {
        *self as u128
    }

    open spec fn spec_to_i128(self) -> i128 {
        self as i128
    }

    fn to_i128(&self) -> (r: i128) {
        *self as i128
    }

    open spec fn spec_to_usize(self) -> usize {
        self as usize
    }

    fn to_usize(&self) -> (r: usize) {
        *self as usize
    }

}

impl Integer for isize {
    open spec fn spec_bit(self, i: usize) -> bool {
        bits::bit_u64(self as u64, i as u64)
    }

    open spec fn spec_with_bit(self, i: usize, b: bool) -> isize {
        bits::with_bit_u64(self as u64, i as u64, b) as isize
    }

    open spec fn spec_bits(self, start: usize, end: usize) -> isize {
        bits::field_u64(self as u64, start as u64, (end - start) as u64) as isize
    }

    open spec fn spec_fits(value: isize, width: usize) -> bool {
        -pow_half_isize(width) <= value < pow_half_isize(width)
    }

    open spec fn spec_with_bits(self, start: usize, end: usize, value: isize) -> isize {
        bits::with_field_u64(self as u64, start as u64, (end - start) as u64, value as u64) as isize
    }

    fn set_bit(&mut self, i: usize) {
        *self = bits::put_bit_u64(*self as u64, i as u64, true) as isize;
    }

    fn unset_bit(&mut self, i: usize) {
        *self = bits::put_bit_u64(*self as u64, i as u64, false) as isize;
    }

    fn get_bit(&self, i: usize) -> (r: BitState) {
        if bits::get_bit_u64(*self as u64, i as u64) {
            BitState::IsSet
        } else {
            BitState::Unset
        }
    }

    fn set_bits(&mut self, range: core::ops::Range<usize>, value: isize) {
        *self = bits::put_field_u64(*self as u64, range.start as u64, (range.end - range.start) as u64, value as u64) as isize;
    }

    fn get_bits(&self, range: core::ops::Range<usize>) -> (r: isize) {
        bits::get_field_u64(*self as u64, range.start as u64, (range.end - range.start) as u64) as isize
    }
}

/// Half of the number of values that `width` bits can hold: the bound of a
/// signed value stored in that many bits.
pub open spec fn pow_half_isize(width: usize) -> int {
    if width == 0 { 0 } else { vstd::arithmetic::power2::pow2((width - 1) as nat) as int }
}

} // verus!

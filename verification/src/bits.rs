//! Bit-level views of fixed-width register values.
//!
//! Every hardware register and packed descriptor in this library is read and
//! written through the helpers below, so their contracts are all stated in terms
//! of the same few spec functions: the state of a single bit, a mask of low
//! bits, a field of consecutive bits, and the value with one bit or one field
//! replaced.
use vstd::prelude::*;

verus! {

// ---------------------------------------------------------------- u8

/// Whether bit `i` of `x` is set (bit 0 is the least significant).
pub open spec fn bit_u8(x: u8, i: u8) -> bool {
    (x >> i) & 1u8 == 1u8
}

/// The value whose low `width` bits are set and whose other bits are clear.
pub open spec fn mask_u8(width: u8) -> u8 {
    if width >= 8 {
        0xffu8
    } else {
        !(0xffu8 << width)
    }
}

/// The `width` bits of `x` that start at bit `lo`, shifted down to bit 0.
pub open spec fn field_u8(x: u8, lo: u8, width: u8) -> u8 {
    (x >> lo) & mask_u8(width)
}

/// `x` with bit `i` set when `b` holds and cleared otherwise.
pub open spec fn with_bit_u8(x: u8, i: u8, b: bool) -> u8 {
    if b {
        x | (1u8 << i)
    } else {
        x & !(1u8 << i)
    }
}

/// `x` with the `width` bits that start at bit `lo` replaced by the low bits of `v`.
pub open spec fn with_field_u8(x: u8, lo: u8, width: u8, v: u8) -> u8 {
    (x & !(mask_u8(width) << lo)) | ((v & mask_u8(width)) << lo)
}

/// Reads bit `i` of `x`.
pub fn get_bit_u8(x: u8, i: u8) -> (r: bool)
    requires
        i < 8,
    ensures
        r == bit_u8(x, i),
{
    (x >> i) & 1u8 == 1u8
}

/// Returns `x` with bit `i` set to `b`.
pub fn put_bit_u8(x: u8, i: u8, b: bool) -> (r: u8)
    requires
        i < 8,
    ensures
        r == with_bit_u8(x, i, b),
{
    if b {
        x | (1u8 << i)
    } else {
        x & !(1u8 << i)
    }
}

/// Returns the low `width` bits mask.
pub fn low_mask_u8(width: u8) -> (r: u8)
    requires
        width <= 8,
    ensures
        r == mask_u8(width),
{
    if width >= 8 {
        0xffu8
    } else {
        !(0xffu8 << width)
    }
}

/// Reads the `width` bits of `x` starting at bit `lo`.
pub fn get_field_u8(x: u8, lo: u8, width: u8) -> (r: u8)
    requires
        lo < 8,
        width <= 8,
    ensures
        r == field_u8(x, lo, width),
{
    (x >> lo) & low_mask_u8(width)
}

/// Returns `x` with the `width` bits starting at bit `lo` replaced by `v`.
pub fn put_field_u8(x: u8, lo: u8, width: u8, v: u8) -> (r: u8)
    requires
        lo < 8,
        width <= 8,
    ensures
        r == with_field_u8(x, lo, width, v),
{
    let m = low_mask_u8(width);
    (x & !(m << lo)) | ((v & m) << lo)
}

/// Setting or clearing one bit changes that bit only.
pub proof fn lemma_with_bit_u8(x: u8, i: u8, j: u8, b: bool)
    requires
        i < 8,
        j < 8,
    ensures
        bit_u8(with_bit_u8(x, i, b), j) == if i == j { b } else { bit_u8(x, j) },
{
    assert(bit_u8(with_bit_u8(x, i, b), j) == if i == j { b } else { bit_u8(x, j) }) by (bit_vector)
        requires
            i < 8,
            j < 8,
    ;
}

/// Writing a field and reading it back gives the written value, when it fits.
pub proof fn lemma_with_field_u8(x: u8, lo: u8, width: u8, v: u8, j: u8)
    requires
        lo < 8,
        0 < width,
        lo + width <= 8,
        v <= mask_u8(width),
        j < 8,
    ensures
        field_u8(with_field_u8(x, lo, width, v), lo, width) == v,
        (j < lo || lo + width <= j) ==> bit_u8(with_field_u8(x, lo, width, v), j) == bit_u8(x, j),
{
    assert(field_u8(with_field_u8(x, lo, width, v), lo, width) == v) by (bit_vector)
        requires
            lo < 8,
            0 < width,
            lo + width <= 8,
            v <= mask_u8(width),
    ;
    assert((j < lo || lo + width <= j) ==> bit_u8(with_field_u8(x, lo, width, v), j) == bit_u8(x, j))
        by (bit_vector)
        requires
            lo < 8,
            0 < width,
            lo + width <= 8,
            j < 8,
    ;
}

/// A field never exceeds its mask.
pub proof fn lemma_field_le_mask_u8(x: u8, lo: u8, width: u8)
    ensures
        field_u8(x, lo, width) <= mask_u8(width),
{
    assert(field_u8(x, lo, width) <= mask_u8(width)) by (bit_vector);
}

// ---------------------------------------------------------------- u16

/// Whether bit `i` of `x` is set (bit 0 is the least significant).
pub open spec fn bit_u16(x: u16, i: u16) -> bool {
    (x >> i) & 1u16 == 1u16
}

/// The value whose low `width` bits are set and whose other bits are clear.
pub open spec fn mask_u16(width: u16) -> u16 {
    if width >= 16 {
        0xffffu16
    } else {
        !(0xffffu16 << width)
    }
}

/// The `width` bits of `x` that start at bit `lo`, shifted down to bit 0.
pub open spec fn field_u16(x: u16, lo: u16, width: u16) -> u16 {
    (x >> lo) & mask_u16(width)
}

/// `x` with bit `i` set when `b` holds and cleared otherwise.
pub open spec fn with_bit_u16(x: u16, i: u16, b: bool) -> u16 {
    if b {
        x | (1u16 << i)
    } else {
        x & !(1u16 << i)
    }
}

/// `x` with the `width` bits that start at bit `lo` replaced by the low bits of `v`.
pub open spec fn with_field_u16(x: u16, lo: u16, width: u16, v: u16) -> u16 {
    (x & !(mask_u16(width) << lo)) | ((v & mask_u16(width)) << lo)
}

/// Reads bit `i` of `x`.
pub fn get_bit_u16(x: u16, i: u16) -> (r: bool)
    requires
        i < 16,
    ensures
        r == bit_u16(x, i),
{
    (x >> i) & 1u16 == 1u16
}

/// Returns `x` with bit `i` set to `b`.
pub fn put_bit_u16(x: u16, i: u16, b: bool) -> (r: u16)
    requires
        i < 16,
    ensures
        r == with_bit_u16(x, i, b),
{
    if b {
        x | (1u16 << i)
    } else {
        x & !(1u16 << i)
    }
}

/// Returns the low `width` bits mask.
pub fn low_mask_u16(width: u16) -> (r: u16)
    requires
        width <= 16,
    ensures
        r == mask_u16(width),
{
    if width >= 16 {
        0xffffu16
    } else {
        !(0xffffu16 << width)
    }
}

/// Reads the `width` bits of `x` starting at bit `lo`.
pub fn get_field_u16(x: u16, lo: u16, width: u16) -> (r: u16)
    requires
        lo < 16,
        width <= 16,
    ensures
        r == field_u16(x, lo, width),
{
    (x >> lo) & low_mask_u16(width)
}

/// Returns `x` with the `width` bits starting at bit `lo` replaced by `v`.
pub fn put_field_u16(x: u16, lo: u16, width: u16, v: u16) -> (r: u16)
    requires
        lo < 16,
        width <= 16,
    ensures
        r == with_field_u16(x, lo, width, v),
{
    let m = low_mask_u16(width);
    (x & !(m << lo)) | ((v & m) << lo)
}

/// Setting or clearing one bit changes that bit only.
pub proof fn lemma_with_bit_u16(x: u16, i: u16, j: u16, b: bool)
    requires
        i < 16,
        j < 16,
    ensures
        bit_u16(with_bit_u16(x, i, b), j) == if i == j { b } else { bit_u16(x, j) },
{
    assert(bit_u16(with_bit_u16(x, i, b), j) == if i == j { b } else { bit_u16(x, j) }) by (bit_vector)
        requires
            i < 16,
            j < 16,
    ;
}

/// Writing a field and reading it back gives the written value, when it fits.
pub proof fn lemma_with_field_u16(x: u16, lo: u16, width: u16, v: u16, j: u16)
    requires
        lo < 16,
        0 < width,
        lo + width <= 16,
        v <= mask_u16(width),
        j < 16,
    ensures
        field_u16(with_field_u16(x, lo, width, v), lo, width) == v,
        (j < lo || lo + width <= j) ==> bit_u16(with_field_u16(x, lo, width, v), j) == bit_u16(x, j),
{
    assert(field_u16(with_field_u16(x, lo, width, v), lo, width) == v) by (bit_vector)
        requires
            lo < 16,
            0 < width,
            lo + width <= 16,
            v <= mask_u16(width),
    ;
    assert((j < lo || lo + width <= j) ==> bit_u16(with_field_u16(x, lo, width, v), j) == bit_u16(x, j))
        by (bit_vector)
        requires
            lo < 16,
            0 < width,
            lo + width <= 16,
            j < 16,
    ;
}

/// A field never exceeds its mask.
pub proof fn lemma_field_le_mask_u16(x: u16, lo: u16, width: u16)
    ensures
        field_u16(x, lo, width) <= mask_u16(width),
{
    assert(field_u16(x, lo, width) <= mask_u16(width)) by (bit_vector);
}

// ---------------------------------------------------------------- u32

/// Whether bit `i` of `x` is set (bit 0 is the least significant).
pub open spec fn bit_u32(x: u32, i: u32) -> bool {
    (x >> i) & 1u32 == 1u32
}

/// The value whose low `width` bits are set and whose other bits are clear.
pub open spec fn mask_u32(width: u32) -> u32 {
    if width >= 32 {
        0xffff_ffffu32
    } else {
        !(0xffff_ffffu32 << width)
    }
}

/// The `width` bits of `x` that start at bit `lo`, shifted down to bit 0.
pub open spec fn field_u32(x: u32, lo: u32, width: u32) -> u32 {
    (x >> lo) & mask_u32(width)
}

/// `x` with bit `i` set when `b` holds and cleared otherwise.
pub open spec fn with_bit_u32(x: u32, i: u32, b: bool) -> u32 {
    if b {
        x | (1u32 << i)
    } else {
        x & !(1u32 << i)
    }
}

/// `x` with the `width` bits that start at bit `lo` replaced by the low bits of `v`.
pub open spec fn with_field_u32(x: u32, lo: u32, width: u32, v: u32) -> u32 {
    (x & !(mask_u32(width) << lo)) | ((v & mask_u32(width)) << lo)
}

/// Reads bit `i` of `x`.
pub fn get_bit_u32(x: u32, i: u32) -> (r: bool)
    requires
        i < 32,
    ensures
        r == bit_u32(x, i),
{
    (x >> i) & 1u32 == 1u32
}

/// Returns `x` with bit `i` set to `b`.
pub fn put_bit_u32(x: u32, i: u32, b: bool) -> (r: u32)
    requires
        i < 32,
    ensures
        r == with_bit_u32(x, i, b),
{
    if b {
        x | (1u32 << i)
    } else {
        x & !(1u32 << i)
    }
}

/// Returns the low `width` bits mask.
pub fn low_mask_u32(width: u32) -> (r: u32)
    requires
        width <= 32,
    ensures
        r == mask_u32(width),
{
    if width >= 32 {
        0xffff_ffffu32
    } else {
        !(0xffff_ffffu32 << width)
    }
}

/// Reads the `width` bits of `x` starting at bit `lo`.
pub fn get_field_u32(x: u32, lo: u32, width: u32) -> (r: u32)
    requires
        lo < 32,
        width <= 32,
    ensures
        r == field_u32(x, lo, width),
{
    (x >> lo) & low_mask_u32(width)
}

/// Returns `x` with the `width` bits starting at bit `lo` replaced by `v`.
pub fn put_field_u32(x: u32, lo: u32, width: u32, v: u32) -> (r: u32)
    requires
        lo < 32,
        width <= 32,
    ensures
        r == with_field_u32(x, lo, width, v),
{
    let m = low_mask_u32(width);
    (x & !(m << lo)) | ((v & m) << lo)
}

/// Setting or clearing one bit changes that bit only.
pub proof fn lemma_with_bit_u32(x: u32, i: u32, j: u32, b: bool)
    requires
        i < 32,
        j < 32,
    ensures
        bit_u32(with_bit_u32(x, i, b), j) == if i == j { b } else { bit_u32(x, j) },
{
    assert(bit_u32(with_bit_u32(x, i, b), j) == if i == j { b } else { bit_u32(x, j) }) by (bit_vector)
        requires
            i < 32,
            j < 32,
    ;
}

/// Writing a field and reading it back gives the written value, when it fits.
pub proof fn lemma_with_field_u32(x: u32, lo: u32, width: u32, v: u32, j: u32)
    requires
        lo < 32,
        0 < width,
        lo + width <= 32,
        v <= mask_u32(width),
        j < 32,
    ensures
        field_u32(with_field_u32(x, lo, width, v), lo, width) == v,
        (j < lo || lo + width <= j) ==> bit_u32(with_field_u32(x, lo, width, v), j) == bit_u32(x, j),
{
    assert(field_u32(with_field_u32(x, lo, width, v), lo, width) == v) by (bit_vector)
        requires
            lo < 32,
            0 < width,
            lo + width <= 32,
            v <= mask_u32(width),
    ;
    assert((j < lo || lo + width <= j) ==> bit_u32(with_field_u32(x, lo, width, v), j) == bit_u32(x, j))
        by (bit_vector)
        requires
            lo < 32,
            0 < width,
            lo + width <= 32,
            j < 32,
    ;
}

/// A field never exceeds its mask.
pub proof fn lemma_field_le_mask_u32(x: u32, lo: u32, width: u32)
    ensures
        field_u32(x, lo, width) <= mask_u32(width),
{
    assert(field_u32(x, lo, width) <= mask_u32(width)) by (bit_vector);
}

// ---------------------------------------------------------------- u64

/// Whether bit `i` of `x` is set (bit 0 is the least significant).
pub open spec fn bit_u64(x: u64, i: u64) -> bool {
    (x >> i) & 1u64 == 1u64
}

/// The value whose low `width` bits are set and whose other bits are clear.
pub open spec fn mask_u64(width: u64) -> u64 {
    if width >= 64 {
        0xffff_ffff_ffff_ffffu64
    } else {
        !(0xffff_ffff_ffff_ffffu64 << width)
    }
}

/// The `width` bits of `x` that start at bit `lo`, shifted down to bit 0.
pub open spec fn field_u64(x: u64, lo: u64, width: u64) -> u64 {
    (x >> lo) & mask_u64(width)
}

/// `x` with bit `i` set when `b` holds and cleared otherwise.
pub open spec fn with_bit_u64(x: u64, i: u64, b: bool) -> u64 {
    if b {
        x | (1u64 << i)
    } else {
        x & !(1u64 << i)
    }
}

/// `x` with the `width` bits that start at bit `lo` replaced by the low bits of `v`.
pub open spec fn with_field_u64(x: u64, lo: u64, width: u64, v: u64) -> u64 {
    (x & !(mask_u64(width) << lo)) | ((v & mask_u64(width)) << lo)
}

/// Reads bit `i` of `x`.
pub fn get_bit_u64(x: u64, i: u64) -> (r: bool)
    requires
        i < 64,
    ensures
        r == bit_u64(x, i),
{
    (x >> i) & 1u64 == 1u64
}

/// Returns `x` with bit `i` set to `b`.
pub fn put_bit_u64(x: u64, i: u64, b: bool) -> (r: u64)
    requires
        i < 64,
    ensures
        r == with_bit_u64(x, i, b),
{
    if b {
        x | (1u64 << i)
    } else {
        x & !(1u64 << i)
    }
}

/// Returns the low `width` bits mask.
pub fn low_mask_u64(width: u64) -> (r: u64)
    requires
        width <= 64,
    ensures
        r == mask_u64(width),
{
    if width >= 64 {
        0xffff_ffff_ffff_ffffu64
    } else {
        !(0xffff_ffff_ffff_ffffu64 << width)
    }
}

/// Reads the `width` bits of `x` starting at bit `lo`.
pub fn get_field_u64(x: u64, lo: u64, width: u64) -> (r: u64)
    requires
        lo < 64,
        width <= 64,
    ensures
        r == field_u64(x, lo, width),
{
    (x >> lo) & low_mask_u64(width)
}

/// Returns `x` with the `width` bits starting at bit `lo` replaced by `v`.
pub fn put_field_u64(x: u64, lo: u64, width: u64, v: u64) -> (r: u64)
    requires
        lo < 64,
        width <= 64,
    ensures
        r == with_field_u64(x, lo, width, v),
{
    let m = low_mask_u64(width);
    (x & !(m << lo)) | ((v & m) << lo)
}

/// Setting or clearing one bit changes that bit only.
pub proof fn lemma_with_bit_u64(x: u64, i: u64, j: u64, b: bool)
    requires
        i < 64,
        j < 64,
    ensures
        bit_u64(with_bit_u64(x, i, b), j) == if i == j { b } else { bit_u64(x, j) },
{
    assert(bit_u64(with_bit_u64(x, i, b), j) == if i == j { b } else { bit_u64(x, j) }) by (bit_vector)
        requires
            i < 64,
            j < 64,
    ;
}

/// Writing a field and reading it back gives the written value, when it fits.
pub proof fn lemma_with_field_u64(x: u64, lo: u64, width: u64, v: u64, j: u64)
    requires
        lo < 64,
        0 < width,
        lo + width <= 64,
        v <= mask_u64(width),
        j < 64,
    ensures
        field_u64(with_field_u64(x, lo, width, v), lo, width) == v,
        (j < lo || lo + width <= j) ==> bit_u64(with_field_u64(x, lo, width, v), j) == bit_u64(x, j),
{
    assert(field_u64(with_field_u64(x, lo, width, v), lo, width) == v) by (bit_vector)
        requires
            lo < 64,
            0 < width,
            lo + width <= 64,
            v <= mask_u64(width),
    ;
    assert((j < lo || lo + width <= j) ==> bit_u64(with_field_u64(x, lo, width, v), j) == bit_u64(x, j))
        by (bit_vector)
        requires
            lo < 64,
            0 < width,
            lo + width <= 64,
            j < 64,
    ;
}

/// A field never exceeds its mask.
pub proof fn lemma_field_le_mask_u64(x: u64, lo: u64, width: u64)
    ensures
        field_u64(x, lo, width) <= mask_u64(width),
{
    assert(field_u64(x, lo, width) <= mask_u64(width)) by (bit_vector);
}

// ---------------------------------------------------------------- u128

/// Whether bit `i` of `x` is set (bit 0 is the least significant).
pub open spec fn bit_u128(x: u128, i: u128) -> bool {
    (x >> i) & 1u128 == 1u128
}

/// The value whose low `width` bits are set and whose other bits are clear.
pub open spec fn mask_u128(width: u128) -> u128 {
    if width >= 128 {
        0xffff_ffff_ffff_ffff_ffff_ffff_ffff_ffffu128
    } else {
        !(0xffff_ffff_ffff_ffff_ffff_ffff_ffff_ffffu128 << width)
    }
}

/// The `width` bits of `x` that start at bit `lo`, shifted down to bit 0.
pub open spec fn field_u128(x: u128, lo: u128, width: u128) -> u128 {
    (x >> lo) & mask_u128(width)
}

/// `x` with bit `i` set when `b` holds and cleared otherwise.
pub open spec fn with_bit_u128(x: u128, i: u128, b: bool) -> u128 {
    if b {
        x | (1u128 << i)
    } else {
        x & !(1u128 << i)
    }
}

/// `x` with the `width` bits that start at bit `lo` replaced by the low bits of `v`.
pub open spec fn with_field_u128(x: u128, lo: u128, width: u128, v: u128) -> u128 {
    (x & !(mask_u128(width) << lo)) | ((v & mask_u128(width)) << lo)
}

/// Reads bit `i` of `x`.
pub fn get_bit_u128(x: u128, i: u128) -> (r: bool)
    requires
        i < 128,
    ensures
        r == bit_u128(x, i),
{
    (x >> i) & 1u128 == 1u128
}

/// Returns `x` with bit `i` set to `b`.
pub fn put_bit_u128(x: u128, i: u128, b: bool) -> (r: u128)
    requires
        i < 128,
    ensures
        r == with_bit_u128(x, i, b),
{
    if b {
        x | (1u128 << i)
    } else {
        x & !(1u128 << i)
    }
}

/// Returns the low `width` bits mask.
pub fn low_mask_u128(width: u128) -> (r: u128)
    requires
        width <= 128,
    ensures
        r == mask_u128(width),
{
    if width >= 128 {
        0xffff_ffff_ffff_ffff_ffff_ffff_ffff_ffffu128
    } else {
        !(0xffff_ffff_ffff_ffff_ffff_ffff_ffff_ffffu128 << width)
    }
}

/// Reads the `width` bits of `x` starting at bit `lo`.
pub fn get_field_u128(x: u128, lo: u128, width: u128) -> (r: u128)
    requires
        lo < 128,
        width <= 128,
    ensures
        r == field_u128(x, lo, width),
{
    (x >> lo) & low_mask_u128(width)
}

/// Returns `x` with the `width` bits starting at bit `lo` replaced by `v`.
pub fn put_field_u128(x: u128, lo: u128, width: u128, v: u128) -> (r: u128)
    requires
        lo < 128,
        width <= 128,
    ensures
        r == with_field_u128(x, lo, width, v),
{
    let m = low_mask_u128(width);
    (x & !(m << lo)) | ((v & m) << lo)
}

/// Setting or clearing one bit changes that bit only.
pub proof fn lemma_with_bit_u128(x: u128, i: u128, j: u128, b: bool)
    requires
        i < 128,
        j < 128,
    ensures
        bit_u128(with_bit_u128(x, i, b), j) == if i == j { b } else { bit_u128(x, j) },
{
    assert(bit_u128(with_bit_u128(x, i, b), j) == if i == j { b } else { bit_u128(x, j) }) by (bit_vector)
        requires
            i < 128,
            j < 128,
    ;
}

/// Writing a field and reading it back gives the written value, when it fits.
pub proof fn lemma_with_field_u128(x: u128, lo: u128, width: u128, v: u128, j: u128)
    requires
        lo < 128,
        0 < width,
        lo + width <= 128,
        v <= mask_u128(width),
        j < 128,
    ensures
        field_u128(with_field_u128(x, lo, width, v), lo, width) == v,
        (j < lo || lo + width <= j) ==> bit_u128(with_field_u128(x, lo, width, v), j) == bit_u128(x, j),
{
    assert(field_u128(with_field_u128(x, lo, width, v), lo, width) == v) by (bit_vector)
        requires
            lo < 128,
            0 < width,
            lo + width <= 128,
            v <= mask_u128(width),
    ;
    assert((j < lo || lo + width <= j) ==> bit_u128(with_field_u128(x, lo, width, v), j) == bit_u128(x, j))
        by (bit_vector)
        requires
            lo < 128,
            0 < width,
            lo + width <= 128,
            j < 128,
    ;
}

/// A field never exceeds its mask.
pub proof fn lemma_field_le_mask_u128(x: u128, lo: u128, width: u128)
    ensures
        field_u128(x, lo, width) <= mask_u128(width),
{
    assert(field_u128(x, lo, width) <= mask_u128(width)) by (bit_vector);
}


/// The values of the low-bit masks of every width up to 32 bits.
pub proof fn lemma_small_masks()
    ensures
        mask_u8(1) == 0x1
        && mask_u8(2) == 0x3
        && mask_u8(3) == 0x7
        && mask_u8(4) == 0xf
        && mask_u8(5) == 0x1f
        && mask_u8(6) == 0x3f
        && mask_u8(7) == 0x7f
        && mask_u8(8) == 0xff
        && mask_u16(1) == 0x1
        && mask_u16(2) == 0x3
        && mask_u16(3) == 0x7
        && mask_u16(4) == 0xf
        && mask_u16(5) == 0x1f
        && mask_u16(6) == 0x3f
        && mask_u16(7) == 0x7f
        && mask_u16(8) == 0xff
        && mask_u16(9) == 0x1ff
        && mask_u16(10) == 0x3ff
        && mask_u16(11) == 0x7ff
        && mask_u16(12) == 0xfff
        && mask_u16(13) == 0x1fff
        && mask_u16(14) == 0x3fff
        && mask_u16(15) == 0x7fff
        && mask_u16(16) == 0xffff
        && mask_u32(1) == 0x1
        && mask_u32(2) == 0x3
        && mask_u32(3) == 0x7
        && mask_u32(4) == 0xf
        && mask_u32(5) == 0x1f
        && mask_u32(6) == 0x3f
        && mask_u32(7) == 0x7f
        && mask_u32(8) == 0xff
        && mask_u32(9) == 0x1ff
        && mask_u32(10) == 0x3ff
        && mask_u32(11) == 0x7ff
        && mask_u32(12) == 0xfff
        && mask_u32(13) == 0x1fff
        && mask_u32(14) == 0x3fff
        && mask_u32(15) == 0x7fff
        && mask_u32(16) == 0xffff
        && mask_u32(17) == 0x1ffff
        && mask_u32(18) == 0x3ffff
        && mask_u32(19) == 0x7ffff
        && mask_u32(20) == 0xfffff
        && mask_u32(21) == 0x1fffff
        && mask_u32(22) == 0x3fffff
        && mask_u32(23) == 0x7fffff
        && mask_u32(24) == 0xffffff
        && mask_u32(25) == 0x1ffffff
        && mask_u32(26) == 0x3ffffff
        && mask_u32(27) == 0x7ffffff
        && mask_u32(28) == 0xfffffff
        && mask_u32(29) == 0x1fffffff
        && mask_u32(30) == 0x3fffffff
        && mask_u32(31) == 0x7fffffff
        && mask_u32(32) == 0xffffffff
        && mask_u64(1) == 0x1
        && mask_u64(2) == 0x3
        && mask_u64(3) == 0x7
        && mask_u64(4) == 0xf
        && mask_u64(5) == 0x1f
        && mask_u64(6) == 0x3f
        && mask_u64(7) == 0x7f
        && mask_u64(8) == 0xff
        && mask_u64(9) == 0x1ff
        && mask_u64(10) == 0x3ff
        && mask_u64(11) == 0x7ff
        && mask_u64(12) == 0xfff
        && mask_u64(13) == 0x1fff
        && mask_u64(14) == 0x3fff
        && mask_u64(15) == 0x7fff
        && mask_u64(16) == 0xffff
        && mask_u64(17) == 0x1ffff
        && mask_u64(18) == 0x3ffff
        && mask_u64(19) == 0x7ffff
        && mask_u64(20) == 0xfffff
        && mask_u64(21) == 0x1fffff
        && mask_u64(22) == 0x3fffff
        && mask_u64(23) == 0x7fffff
        && mask_u64(24) == 0xffffff
        && mask_u64(25) == 0x1ffffff
        && mask_u64(26) == 0x3ffffff
        && mask_u64(27) == 0x7ffffff
        && mask_u64(28) == 0xfffffff
        && mask_u64(29) == 0x1fffffff
        && mask_u64(30) == 0x3fffffff
        && mask_u64(31) == 0x7fffffff
        && mask_u64(32) == 0xffffffff
        && mask_u128(1) == 0x1
        && mask_u128(2) == 0x3
        && mask_u128(3) == 0x7
        && mask_u128(4) == 0xf
        && mask_u128(5) == 0x1f
        && mask_u128(6) == 0x3f
        && mask_u128(7) == 0x7f
        && mask_u128(8) == 0xff
        && mask_u128(9) == 0x1ff
        && mask_u128(10) == 0x3ff
        && mask_u128(11) == 0x7ff
        && mask_u128(12) == 0xfff
        && mask_u128(13) == 0x1fff
        && mask_u128(14) == 0x3fff
        && mask_u128(15) == 0x7fff
        && mask_u128(16) == 0xffff
        && mask_u128(17) == 0x1ffff
        && mask_u128(18) == 0x3ffff
        && mask_u128(19) == 0x7ffff
        && mask_u128(20) == 0xfffff
        && mask_u128(21) == 0x1fffff
        && mask_u128(22) == 0x3fffff
        && mask_u128(23) == 0x7fffff
        && mask_u128(24) == 0xffffff
        && mask_u128(25) == 0x1ffffff
        && mask_u128(26) == 0x3ffffff
        && mask_u128(27) == 0x7ffffff
        && mask_u128(28) == 0xfffffff
        && mask_u128(29) == 0x1fffffff
        && mask_u128(30) == 0x3fffffff
        && mask_u128(31) == 0x7fffffff
        && mask_u128(32) == 0xffffffff,
{
    assert(mask_u8(1) == 0x1
        && mask_u8(2) == 0x3
        && mask_u8(3) == 0x7
        && mask_u8(4) == 0xf
        && mask_u8(5) == 0x1f
        && mask_u8(6) == 0x3f
        && mask_u8(7) == 0x7f
        && mask_u8(8) == 0xff
        && mask_u16(1) == 0x1
        && mask_u16(2) == 0x3
        && mask_u16(3) == 0x7
        && mask_u16(4) == 0xf
        && mask_u16(5) == 0x1f
        && mask_u16(6) == 0x3f
        && mask_u16(7) == 0x7f
        && mask_u16(8) == 0xff
        && mask_u16(9) == 0x1ff
        && mask_u16(10) == 0x3ff
        && mask_u16(11) == 0x7ff
        && mask_u16(12) == 0xfff
        && mask_u16(13) == 0x1fff
        && mask_u16(14) == 0x3fff
        && mask_u16(15) == 0x7fff
        && mask_u16(16) == 0xffff
        && mask_u32(1) == 0x1
        && mask_u32(2) == 0x3
        && mask_u32(3) == 0x7
        && mask_u32(4) == 0xf
        && mask_u32(5) == 0x1f
        && mask_u32(6) == 0x3f
        && mask_u32(7) == 0x7f
        && mask_u32(8) == 0xff
        && mask_u32(9) == 0x1ff
        && mask_u32(10) == 0x3ff
        && mask_u32(11) == 0x7ff
        && mask_u32(12) == 0xfff
        && mask_u32(13) == 0x1fff
        && mask_u32(14) == 0x3fff
        && mask_u32(15) == 0x7fff
        && mask_u32(16) == 0xffff
        && mask_u32(17) == 0x1ffff
        && mask_u32(18) == 0x3ffff
        && mask_u32(19) == 0x7ffff
        && mask_u32(20) == 0xfffff
        && mask_u32(21) == 0x1fffff
        && mask_u32(22) == 0x3fffff
        && mask_u32(23) == 0x7fffff
        && mask_u32(24) == 0xffffff
        && mask_u32(25) == 0x1ffffff
        && mask_u32(26) == 0x3ffffff
        && mask_u32(27) == 0x7ffffff
        && mask_u32(28) == 0xfffffff
        && mask_u32(29) == 0x1fffffff
        && mask_u32(30) == 0x3fffffff
        && mask_u32(31) == 0x7fffffff
        && mask_u32(32) == 0xffffffff
        && mask_u64(1) == 0x1
        && mask_u64(2) == 0x3
        && mask_u64(3) == 0x7
        && mask_u64(4) == 0xf
        && mask_u64(5) == 0x1f
        && mask_u64(6) == 0x3f
        && mask_u64(7) == 0x7f
        && mask_u64(8) == 0xff
        && mask_u64(9) == 0x1ff
        && mask_u64(10) == 0x3ff
        && mask_u64(11) == 0x7ff
        && mask_u64(12) == 0xfff
        && mask_u64(13) == 0x1fff
        && mask_u64(14) == 0x3fff
        && mask_u64(15) == 0x7fff
        && mask_u64(16) == 0xffff
        && mask_u64(17) == 0x1ffff
        && mask_u64(18) == 0x3ffff
        && mask_u64(19) == 0x7ffff
        && mask_u64(20) == 0xfffff
        && mask_u64(21) == 0x1fffff
        && mask_u64(22) == 0x3fffff
        && mask_u64(23) == 0x7fffff
        && mask_u64(24) == 0xffffff
        && mask_u64(25) == 0x1ffffff
        && mask_u64(26) == 0x3ffffff
        && mask_u64(27) == 0x7ffffff
        && mask_u64(28) == 0xfffffff
        && mask_u64(29) == 0x1fffffff
        && mask_u64(30) == 0x3fffffff
        && mask_u64(31) == 0x7fffffff
        && mask_u64(32) == 0xffffffff
        && mask_u128(1) == 0x1
        && mask_u128(2) == 0x3
        && mask_u128(3) == 0x7
        && mask_u128(4) == 0xf
        && mask_u128(5) == 0x1f
        && mask_u128(6) == 0x3f
        && mask_u128(7) == 0x7f
        && mask_u128(8) == 0xff
        && mask_u128(9) == 0x1ff
        && mask_u128(10) == 0x3ff
        && mask_u128(11) == 0x7ff
        && mask_u128(12) == 0xfff
        && mask_u128(13) == 0x1fff
        && mask_u128(14) == 0x3fff
        && mask_u128(15) == 0x7fff
        && mask_u128(16) == 0xffff
        && mask_u128(17) == 0x1ffff
        && mask_u128(18) == 0x3ffff
        && mask_u128(19) == 0x7ffff
        && mask_u128(20) == 0xfffff
        && mask_u128(21) == 0x1fffff
        && mask_u128(22) == 0x3fffff
        && mask_u128(23) == 0x7fffff
        && mask_u128(24) == 0xffffff
        && mask_u128(25) == 0x1ffffff
        && mask_u128(26) == 0x3ffffff
        && mask_u128(27) == 0x7ffffff
        && mask_u128(28) == 0xfffffff
        && mask_u128(29) == 0x1fffffff
        && mask_u128(30) == 0x3fffffff
        && mask_u128(31) == 0x7fffffff
        && mask_u128(32) == 0xffffffff) by (bit_vector);
}

} // verus!

//! Words as numbers: their bits, fields and rotations.
//!
//! What a bit operation gives is stated in arithmetic: bit `b` of a word
//! has the weight `2^b`, a shift divides or multiplies by a power of two,
//! and a mask takes a remainder.

use vstd::prelude::*;

verus! {

/// Two to the power of `n`, for `n` up to 32; above that, `2^32`.
#[verifier::inline]
pub open spec fn pow2(n: u32) -> u64 {
    if n == 0 {
        0x1
    } else if n == 1 {
        0x2
    } else if n == 2 {
        0x4
    } else if n == 3 {
        0x8
    } else if n == 4 {
        0x10
    } else if n == 5 {
        0x20
    } else if n == 6 {
        0x40
    } else if n == 7 {
        0x80
    } else if n == 8 {
        0x100
    } else if n == 9 {
        0x200
    } else if n == 10 {
        0x400
    } else if n == 11 {
        0x800
    } else if n == 12 {
        0x1000
    } else if n == 13 {
        0x2000
    } else if n == 14 {
        0x4000
    } else if n == 15 {
        0x8000
    } else if n == 16 {
        0x10000
    } else if n == 17 {
        0x20000
    } else if n == 18 {
        0x40000
    } else if n == 19 {
        0x80000
    } else if n == 20 {
        0x100000
    } else if n == 21 {
        0x200000
    } else if n == 22 {
        0x400000
    } else if n == 23 {
        0x800000
    } else if n == 24 {
        0x1000000
    } else if n == 25 {
        0x2000000
    } else if n == 26 {
        0x4000000
    } else if n == 27 {
        0x8000000
    } else if n == 28 {
        0x10000000
    } else if n == 29 {
        0x20000000
    } else if n == 30 {
        0x40000000
    } else if n == 31 {
        0x80000000
    } else {
        0x1_0000_0000
    }
}

/// The field of `w` that starts at bit `lo` and is `width` bits wide.
pub open spec fn field(w: u32, lo: u32, width: u32) -> u32 {
    ((w as int / pow2(lo) as int) % pow2(width) as int) as u32
}

/// Whether bit `bit` of `x` is set.
pub open spec fn bit_is_set(x: u32, bit: u32) -> bool {
    field(x, bit, 1) == 1
}

/// `x` with bit `bit` set or cleared: the weight of the bit is added if
/// it is to be set and is not, and taken off if it is to be cleared and
/// is set.
pub open spec fn with_bit(x: u32, bit: u32, set: bool) -> u32 {
    if bit_is_set(x, bit) == set {
        x
    } else if set {
        (x + pow2(bit)) as u32
    } else {
        (x - pow2(bit)) as u32
    }
}

/// `x` rotated right by `n` bit positions, `n` taken modulo 32: the bits
/// above the lowest `n` move down, and the lowest `n` bits move to the
/// top.
pub open spec fn ror32(x: u32, n: u32) -> u32 {
    let k = n % 32;
    if k == 0 {
        x
    } else if k == 1 {
        (x / 0x2 + (x % 0x2) * 0x80000000) as u32
    } else if k == 2 {
        (x / 0x4 + (x % 0x4) * 0x40000000) as u32
    } else if k == 3 {
        (x / 0x8 + (x % 0x8) * 0x20000000) as u32
    } else if k == 4 {
        (x / 0x10 + (x % 0x10) * 0x10000000) as u32
    } else if k == 5 {
        (x / 0x20 + (x % 0x20) * 0x8000000) as u32
    } else if k == 6 {
        (x / 0x40 + (x % 0x40) * 0x4000000) as u32
    } else if k == 7 {
        (x / 0x80 + (x % 0x80) * 0x2000000) as u32
    } else if k == 8 {
        (x / 0x100 + (x % 0x100) * 0x1000000) as u32
    } else if k == 9 {
        (x / 0x200 + (x % 0x200) * 0x800000) as u32
    } else if k == 10 {
        (x / 0x400 + (x % 0x400) * 0x400000) as u32
    } else if k == 11 {
        (x / 0x800 + (x % 0x800) * 0x200000) as u32
    } else if k == 12 {
        (x / 0x1000 + (x % 0x1000) * 0x100000) as u32
    } else if k == 13 {
        (x / 0x2000 + (x % 0x2000) * 0x80000) as u32
    } else if k == 14 {
        (x / 0x4000 + (x % 0x4000) * 0x40000) as u32
    } else if k == 15 {
        (x / 0x8000 + (x % 0x8000) * 0x20000) as u32
    } else if k == 16 {
        (x / 0x10000 + (x % 0x10000) * 0x10000) as u32
    } else if k == 17 {
        (x / 0x20000 + (x % 0x20000) * 0x8000) as u32
    } else if k == 18 {
        (x / 0x40000 + (x % 0x40000) * 0x4000) as u32
    } else if k == 19 {
        (x / 0x80000 + (x % 0x80000) * 0x2000) as u32
    } else if k == 20 {
        (x / 0x100000 + (x % 0x100000) * 0x1000) as u32
    } else if k == 21 {
        (x / 0x200000 + (x % 0x200000) * 0x800) as u32
    } else if k == 22 {
        (x / 0x400000 + (x % 0x400000) * 0x400) as u32
    } else if k == 23 {
        (x / 0x800000 + (x % 0x800000) * 0x200) as u32
    } else if k == 24 {
        (x / 0x1000000 + (x % 0x1000000) * 0x100) as u32
    } else if k == 25 {
        (x / 0x2000000 + (x % 0x2000000) * 0x80) as u32
    } else if k == 26 {
        (x / 0x4000000 + (x % 0x4000000) * 0x40) as u32
    } else if k == 27 {
        (x / 0x8000000 + (x % 0x8000000) * 0x20) as u32
    } else if k == 28 {
        (x / 0x10000000 + (x % 0x10000000) * 0x10) as u32
    } else if k == 29 {
        (x / 0x20000000 + (x % 0x20000000) * 0x8) as u32
    } else if k == 30 {
        (x / 0x40000000 + (x % 0x40000000) * 0x4) as u32
    } else {
        (x / 0x80000000 + (x % 0x80000000) * 0x2) as u32
    }
}

/// `x` rotated left by `n` bit positions, `n` taken modulo 32.
pub open spec fn rol32(x: u32, n: u32) -> u32 {
    ror32(x, (32 - n % 32) as u32)
}

/// `x` shifted left by `n` bit positions, up to 31: the bits that leave
/// the word are lost.
pub open spec fn shl32(x: u32, n: u32) -> u32 {
    if n == 0 {
        x
    } else if n == 1 {
        ((x % 0x80000000u32) as u64 * 0x2u64) as u32
    } else if n == 2 {
        ((x % 0x40000000u32) as u64 * 0x4u64) as u32
    } else if n == 3 {
        ((x % 0x20000000u32) as u64 * 0x8u64) as u32
    } else if n == 4 {
        ((x % 0x10000000u32) as u64 * 0x10u64) as u32
    } else if n == 5 {
        ((x % 0x8000000u32) as u64 * 0x20u64) as u32
    } else if n == 6 {
        ((x % 0x4000000u32) as u64 * 0x40u64) as u32
    } else if n == 7 {
        ((x % 0x2000000u32) as u64 * 0x80u64) as u32
    } else if n == 8 {
        ((x % 0x1000000u32) as u64 * 0x100u64) as u32
    } else if n == 9 {
        ((x % 0x800000u32) as u64 * 0x200u64) as u32
    } else if n == 10 {
        ((x % 0x400000u32) as u64 * 0x400u64) as u32
    } else if n == 11 {
        ((x % 0x200000u32) as u64 * 0x800u64) as u32
    } else if n == 12 {
        ((x % 0x100000u32) as u64 * 0x1000u64) as u32
    } else if n == 13 {
        ((x % 0x80000u32) as u64 * 0x2000u64) as u32
    } else if n == 14 {
        ((x % 0x40000u32) as u64 * 0x4000u64) as u32
    } else if n == 15 {
        ((x % 0x20000u32) as u64 * 0x8000u64) as u32
    } else if n == 16 {
        ((x % 0x10000u32) as u64 * 0x10000u64) as u32
    } else if n == 17 {
        ((x % 0x8000u32) as u64 * 0x20000u64) as u32
    } else if n == 18 {
        ((x % 0x4000u32) as u64 * 0x40000u64) as u32
    } else if n == 19 {
        ((x % 0x2000u32) as u64 * 0x80000u64) as u32
    } else if n == 20 {
        ((x % 0x1000u32) as u64 * 0x100000u64) as u32
    } else if n == 21 {
        ((x % 0x800u32) as u64 * 0x200000u64) as u32
    } else if n == 22 {
        ((x % 0x400u32) as u64 * 0x400000u64) as u32
    } else if n == 23 {
        ((x % 0x200u32) as u64 * 0x800000u64) as u32
    } else if n == 24 {
        ((x % 0x100u32) as u64 * 0x1000000u64) as u32
    } else if n == 25 {
        ((x % 0x80u32) as u64 * 0x2000000u64) as u32
    } else if n == 26 {
        ((x % 0x40u32) as u64 * 0x4000000u64) as u32
    } else if n == 27 {
        ((x % 0x20u32) as u64 * 0x8000000u64) as u32
    } else if n == 28 {
        ((x % 0x10u32) as u64 * 0x10000000u64) as u32
    } else if n == 29 {
        ((x % 0x8u32) as u64 * 0x20000000u64) as u32
    } else if n == 30 {
        ((x % 0x4u32) as u64 * 0x40000000u64) as u32
    } else {
        ((x % 0x2u32) as u64 * 0x80000000u64) as u32
    }
}

/// `x` shifted right by `n` bit positions, up to 31.
pub open spec fn shr32(x: u32, n: u32) -> u32 {
    (x as int / pow2(n) as int) as u32
}

/// The complement of a word: every bit the other way.
pub open spec fn complement(x: u32) -> u32 {
    (0xFFFF_FFFF - x) as u32
}

/// The flag bits N, Z, C and V as a word: bits 31 to 28.
pub open spec fn nzcv_word(n: bool, z: bool, c: bool, v: bool) -> u32 {
    ((if n { 0x8000_0000int } else { 0 }) + (if z { 0x4000_0000int } else { 0 }) + (if c {
        0x2000_0000int
    } else {
        0
    }) + (if v { 0x1000_0000int } else { 0 })) as u32
}

/// `x` with its top four bits replaced by the given flags.
pub open spec fn with_nzcv(x: u32, n: bool, z: bool, c: bool, v: bool) -> u32 {
    (x % 0x1000_0000 + nzcv_word(n, z, c, v)) as u32
}

/// What a shift to the right gives, for each amount.
proof fn lemma_shift_right_cases(x: u32, n: u32)
    by (bit_vector)
    requires
        n < 32,
    ensures
        n == 0 ==> x >> n == x / 0x1u32,
        n == 1 ==> x >> n == x / 0x2u32,
        n == 2 ==> x >> n == x / 0x4u32,
        n == 3 ==> x >> n == x / 0x8u32,
        n == 4 ==> x >> n == x / 0x10u32,
        n == 5 ==> x >> n == x / 0x20u32,
        n == 6 ==> x >> n == x / 0x40u32,
        n == 7 ==> x >> n == x / 0x80u32,
        n == 8 ==> x >> n == x / 0x100u32,
        n == 9 ==> x >> n == x / 0x200u32,
        n == 10 ==> x >> n == x / 0x400u32,
        n == 11 ==> x >> n == x / 0x800u32,
        n == 12 ==> x >> n == x / 0x1000u32,
        n == 13 ==> x >> n == x / 0x2000u32,
        n == 14 ==> x >> n == x / 0x4000u32,
        n == 15 ==> x >> n == x / 0x8000u32,
        n == 16 ==> x >> n == x / 0x10000u32,
        n == 17 ==> x >> n == x / 0x20000u32,
        n == 18 ==> x >> n == x / 0x40000u32,
        n == 19 ==> x >> n == x / 0x80000u32,
        n == 20 ==> x >> n == x / 0x100000u32,
        n == 21 ==> x >> n == x / 0x200000u32,
        n == 22 ==> x >> n == x / 0x400000u32,
        n == 23 ==> x >> n == x / 0x800000u32,
        n == 24 ==> x >> n == x / 0x1000000u32,
        n == 25 ==> x >> n == x / 0x2000000u32,
        n == 26 ==> x >> n == x / 0x4000000u32,
        n == 27 ==> x >> n == x / 0x8000000u32,
        n == 28 ==> x >> n == x / 0x10000000u32,
        n == 29 ==> x >> n == x / 0x20000000u32,
        n == 30 ==> x >> n == x / 0x40000000u32,
        n == 31 ==> x >> n == x / 0x80000000u32,
{
}

/// What a shift to the left gives, for each amount: the bits that stay,
/// above zeros.
proof fn lemma_shift_left_cases(x: u32, n: u32)
    by (bit_vector)
    requires
        n < 32,
    ensures
        n == 0 ==> x << n == x,
        n == 1 ==> x << n == ((x % 0x80000000u32) as u64 * 0x2u64) as u32,
        n == 2 ==> x << n == ((x % 0x40000000u32) as u64 * 0x4u64) as u32,
        n == 3 ==> x << n == ((x % 0x20000000u32) as u64 * 0x8u64) as u32,
        n == 4 ==> x << n == ((x % 0x10000000u32) as u64 * 0x10u64) as u32,
        n == 5 ==> x << n == ((x % 0x8000000u32) as u64 * 0x20u64) as u32,
        n == 6 ==> x << n == ((x % 0x4000000u32) as u64 * 0x40u64) as u32,
        n == 7 ==> x << n == ((x % 0x2000000u32) as u64 * 0x80u64) as u32,
        n == 8 ==> x << n == ((x % 0x1000000u32) as u64 * 0x100u64) as u32,
        n == 9 ==> x << n == ((x % 0x800000u32) as u64 * 0x200u64) as u32,
        n == 10 ==> x << n == ((x % 0x400000u32) as u64 * 0x400u64) as u32,
        n == 11 ==> x << n == ((x % 0x200000u32) as u64 * 0x800u64) as u32,
        n == 12 ==> x << n == ((x % 0x100000u32) as u64 * 0x1000u64) as u32,
        n == 13 ==> x << n == ((x % 0x80000u32) as u64 * 0x2000u64) as u32,
        n == 14 ==> x << n == ((x % 0x40000u32) as u64 * 0x4000u64) as u32,
        n == 15 ==> x << n == ((x % 0x20000u32) as u64 * 0x8000u64) as u32,
        n == 16 ==> x << n == ((x % 0x10000u32) as u64 * 0x10000u64) as u32,
        n == 17 ==> x << n == ((x % 0x8000u32) as u64 * 0x20000u64) as u32,
        n == 18 ==> x << n == ((x % 0x4000u32) as u64 * 0x40000u64) as u32,
        n == 19 ==> x << n == ((x % 0x2000u32) as u64 * 0x80000u64) as u32,
        n == 20 ==> x << n == ((x % 0x1000u32) as u64 * 0x100000u64) as u32,
        n == 21 ==> x << n == ((x % 0x800u32) as u64 * 0x200000u64) as u32,
        n == 22 ==> x << n == ((x % 0x400u32) as u64 * 0x400000u64) as u32,
        n == 23 ==> x << n == ((x % 0x200u32) as u64 * 0x800000u64) as u32,
        n == 24 ==> x << n == ((x % 0x100u32) as u64 * 0x1000000u64) as u32,
        n == 25 ==> x << n == ((x % 0x80u32) as u64 * 0x2000000u64) as u32,
        n == 26 ==> x << n == ((x % 0x40u32) as u64 * 0x4000000u64) as u32,
        n == 27 ==> x << n == ((x % 0x20u32) as u64 * 0x8000000u64) as u32,
        n == 28 ==> x << n == ((x % 0x10u32) as u64 * 0x10000000u64) as u32,
        n == 29 ==> x << n == ((x % 0x8u32) as u64 * 0x20000000u64) as u32,
        n == 30 ==> x << n == ((x % 0x4u32) as u64 * 0x40000000u64) as u32,
        n == 31 ==> x << n == ((x % 0x2u32) as u64 * 0x80000000u64) as u32,
{
}

/// What a mask of the lowest bits gives, for each width; `back` is what
/// the width is short of 32.
proof fn lemma_mask_cases(x: u32, width: u32, back: u32)
    by (bit_vector)
    requires
        0 < width <= 32,
        back < 32,
        width + back == 32,
    ensures
        width == 1 ==> x & (0xFFFF_FFFFu32 >> back) == x % 0x2u32,
        width == 2 ==> x & (0xFFFF_FFFFu32 >> back) == x % 0x4u32,
        width == 3 ==> x & (0xFFFF_FFFFu32 >> back) == x % 0x8u32,
        width == 4 ==> x & (0xFFFF_FFFFu32 >> back) == x % 0x10u32,
        width == 5 ==> x & (0xFFFF_FFFFu32 >> back) == x % 0x20u32,
        width == 6 ==> x & (0xFFFF_FFFFu32 >> back) == x % 0x40u32,
        width == 7 ==> x & (0xFFFF_FFFFu32 >> back) == x % 0x80u32,
        width == 8 ==> x & (0xFFFF_FFFFu32 >> back) == x % 0x100u32,
        width == 9 ==> x & (0xFFFF_FFFFu32 >> back) == x % 0x200u32,
        width == 10 ==> x & (0xFFFF_FFFFu32 >> back) == x % 0x400u32,
        width == 11 ==> x & (0xFFFF_FFFFu32 >> back) == x % 0x800u32,
        width == 12 ==> x & (0xFFFF_FFFFu32 >> back) == x % 0x1000u32,
        width == 13 ==> x & (0xFFFF_FFFFu32 >> back) == x % 0x2000u32,
        width == 14 ==> x & (0xFFFF_FFFFu32 >> back) == x % 0x4000u32,
        width == 15 ==> x & (0xFFFF_FFFFu32 >> back) == x % 0x8000u32,
        width == 16 ==> x & (0xFFFF_FFFFu32 >> back) == x % 0x10000u32,
        width == 17 ==> x & (0xFFFF_FFFFu32 >> back) == x % 0x20000u32,
        width == 18 ==> x & (0xFFFF_FFFFu32 >> back) == x % 0x40000u32,
        width == 19 ==> x & (0xFFFF_FFFFu32 >> back) == x % 0x80000u32,
        width == 20 ==> x & (0xFFFF_FFFFu32 >> back) == x % 0x100000u32,
        width == 21 ==> x & (0xFFFF_FFFFu32 >> back) == x % 0x200000u32,
        width == 22 ==> x & (0xFFFF_FFFFu32 >> back) == x % 0x400000u32,
        width == 23 ==> x & (0xFFFF_FFFFu32 >> back) == x % 0x800000u32,
        width == 24 ==> x & (0xFFFF_FFFFu32 >> back) == x % 0x1000000u32,
        width == 25 ==> x & (0xFFFF_FFFFu32 >> back) == x % 0x2000000u32,
        width == 26 ==> x & (0xFFFF_FFFFu32 >> back) == x % 0x4000000u32,
        width == 27 ==> x & (0xFFFF_FFFFu32 >> back) == x % 0x8000000u32,
        width == 28 ==> x & (0xFFFF_FFFFu32 >> back) == x % 0x10000000u32,
        width == 29 ==> x & (0xFFFF_FFFFu32 >> back) == x % 0x20000000u32,
        width == 30 ==> x & (0xFFFF_FFFFu32 >> back) == x % 0x40000000u32,
        width == 31 ==> x & (0xFFFF_FFFFu32 >> back) == x % 0x80000000u32,
        width == 32 ==> x & (0xFFFF_FFFFu32 >> back) == x,
{
}

/// What the test of a bit gives, and what the weight of the bit is, for
/// each bit.
proof fn lemma_weight_cases(x: u32, bit: u32)
    by (bit_vector)
    requires
        bit < 32,
    ensures
        x & (1u32 << bit) == 0 || x & (1u32 << bit) == (1u32 << bit),
        bit == 0 ==> ((x & (1u32 << bit)) != 0) == ((x / 0x1u32) % 2 == 1) && (1u32 << bit) == 0x1u32,
        bit == 1 ==> ((x & (1u32 << bit)) != 0) == ((x / 0x2u32) % 2 == 1) && (1u32 << bit) == 0x2u32,
        bit == 2 ==> ((x & (1u32 << bit)) != 0) == ((x / 0x4u32) % 2 == 1) && (1u32 << bit) == 0x4u32,
        bit == 3 ==> ((x & (1u32 << bit)) != 0) == ((x / 0x8u32) % 2 == 1) && (1u32 << bit) == 0x8u32,
        bit == 4 ==> ((x & (1u32 << bit)) != 0) == ((x / 0x10u32) % 2 == 1) && (1u32 << bit) == 0x10u32,
        bit == 5 ==> ((x & (1u32 << bit)) != 0) == ((x / 0x20u32) % 2 == 1) && (1u32 << bit) == 0x20u32,
        bit == 6 ==> ((x & (1u32 << bit)) != 0) == ((x / 0x40u32) % 2 == 1) && (1u32 << bit) == 0x40u32,
        bit == 7 ==> ((x & (1u32 << bit)) != 0) == ((x / 0x80u32) % 2 == 1) && (1u32 << bit) == 0x80u32,
        bit == 8 ==> ((x & (1u32 << bit)) != 0) == ((x / 0x100u32) % 2 == 1) && (1u32 << bit) == 0x100u32,
        bit == 9 ==> ((x & (1u32 << bit)) != 0) == ((x / 0x200u32) % 2 == 1) && (1u32 << bit) == 0x200u32,
        bit == 10 ==> ((x & (1u32 << bit)) != 0) == ((x / 0x400u32) % 2 == 1) && (1u32 << bit) == 0x400u32,
        bit == 11 ==> ((x & (1u32 << bit)) != 0) == ((x / 0x800u32) % 2 == 1) && (1u32 << bit) == 0x800u32,
        bit == 12 ==> ((x & (1u32 << bit)) != 0) == ((x / 0x1000u32) % 2 == 1) && (1u32 << bit) == 0x1000u32,
        bit == 13 ==> ((x & (1u32 << bit)) != 0) == ((x / 0x2000u32) % 2 == 1) && (1u32 << bit) == 0x2000u32,
        bit == 14 ==> ((x & (1u32 << bit)) != 0) == ((x / 0x4000u32) % 2 == 1) && (1u32 << bit) == 0x4000u32,
        bit == 15 ==> ((x & (1u32 << bit)) != 0) == ((x / 0x8000u32) % 2 == 1) && (1u32 << bit) == 0x8000u32,
        bit == 16 ==> ((x & (1u32 << bit)) != 0) == ((x / 0x10000u32) % 2 == 1) && (1u32 << bit) == 0x10000u32,
        bit == 17 ==> ((x & (1u32 << bit)) != 0) == ((x / 0x20000u32) % 2 == 1) && (1u32 << bit) == 0x20000u32,
        bit == 18 ==> ((x & (1u32 << bit)) != 0) == ((x / 0x40000u32) % 2 == 1) && (1u32 << bit) == 0x40000u32,
        bit == 19 ==> ((x & (1u32 << bit)) != 0) == ((x / 0x80000u32) % 2 == 1) && (1u32 << bit) == 0x80000u32,
        bit == 20 ==> ((x & (1u32 << bit)) != 0) == ((x / 0x100000u32) % 2 == 1) && (1u32 << bit) == 0x100000u32,
        bit == 21 ==> ((x & (1u32 << bit)) != 0) == ((x / 0x200000u32) % 2 == 1) && (1u32 << bit) == 0x200000u32,
        bit == 22 ==> ((x & (1u32 << bit)) != 0) == ((x / 0x400000u32) % 2 == 1) && (1u32 << bit) == 0x400000u32,
        bit == 23 ==> ((x & (1u32 << bit)) != 0) == ((x / 0x800000u32) % 2 == 1) && (1u32 << bit) == 0x800000u32,
        bit == 24 ==> ((x & (1u32 << bit)) != 0) == ((x / 0x1000000u32) % 2 == 1) && (1u32 << bit) == 0x1000000u32,
        bit == 25 ==> ((x & (1u32 << bit)) != 0) == ((x / 0x2000000u32) % 2 == 1) && (1u32 << bit) == 0x2000000u32,
        bit == 26 ==> ((x & (1u32 << bit)) != 0) == ((x / 0x4000000u32) % 2 == 1) && (1u32 << bit) == 0x4000000u32,
        bit == 27 ==> ((x & (1u32 << bit)) != 0) == ((x / 0x8000000u32) % 2 == 1) && (1u32 << bit) == 0x8000000u32,
        bit == 28 ==> ((x & (1u32 << bit)) != 0) == ((x / 0x10000000u32) % 2 == 1) && (1u32 << bit) == 0x10000000u32,
        bit == 29 ==> ((x & (1u32 << bit)) != 0) == ((x / 0x20000000u32) % 2 == 1) && (1u32 << bit) == 0x20000000u32,
        bit == 30 ==> ((x & (1u32 << bit)) != 0) == ((x / 0x40000000u32) % 2 == 1) && (1u32 << bit) == 0x40000000u32,
        bit == 31 ==> ((x & (1u32 << bit)) != 0) == ((x / 0x80000000u32) % 2 == 1) && (1u32 << bit) == 0x80000000u32,
{
}

/// What setting and clearing the bits of a mask gives: a bit that was
/// clear adds its weight, a bit that was set takes it off.
proof fn lemma_set_or_clear(x: u32, weight: u32)
    ensures
        x & weight == 0 ==> x | weight == x + weight,
        x & weight == weight ==> x | weight == x,
        x & weight == weight ==> (x & !weight) + weight == x,
        x & weight == 0 ==> x & !weight == x,
{
    assert(x & weight == 0 ==> (x | weight) as u64 == (x as u64 + weight as u64) as u64)
        by (bit_vector);
    assert(x & weight == weight ==> x | weight == x) by (bit_vector);
    assert(x & weight == weight ==> ((x & !weight) as u64 + weight as u64) as u64 == x as u64)
        by (bit_vector);
    assert(x & weight == 0 ==> x & !weight == x) by (bit_vector);
}

/// What a rotation to the right gives, for each amount; `back` is what
/// the amount is short of 32.
proof fn lemma_rotate_cases(x: u32, k: u32, back: u32)
    by (bit_vector)
    requires
        0 < k < 32,
        back < 32,
        k + back == 32,
    ensures
        k == 1 ==> ((x >> k) | (x << back)) as u64 == ((x / 0x2u32) as u64 + (((x % 0x2u32) as u64 * 0x80000000u64) as u64)) as u64,
        k == 2 ==> ((x >> k) | (x << back)) as u64 == ((x / 0x4u32) as u64 + (((x % 0x4u32) as u64 * 0x40000000u64) as u64)) as u64,
        k == 3 ==> ((x >> k) | (x << back)) as u64 == ((x / 0x8u32) as u64 + (((x % 0x8u32) as u64 * 0x20000000u64) as u64)) as u64,
        k == 4 ==> ((x >> k) | (x << back)) as u64 == ((x / 0x10u32) as u64 + (((x % 0x10u32) as u64 * 0x10000000u64) as u64)) as u64,
        k == 5 ==> ((x >> k) | (x << back)) as u64 == ((x / 0x20u32) as u64 + (((x % 0x20u32) as u64 * 0x8000000u64) as u64)) as u64,
        k == 6 ==> ((x >> k) | (x << back)) as u64 == ((x / 0x40u32) as u64 + (((x % 0x40u32) as u64 * 0x4000000u64) as u64)) as u64,
        k == 7 ==> ((x >> k) | (x << back)) as u64 == ((x / 0x80u32) as u64 + (((x % 0x80u32) as u64 * 0x2000000u64) as u64)) as u64,
        k == 8 ==> ((x >> k) | (x << back)) as u64 == ((x / 0x100u32) as u64 + (((x % 0x100u32) as u64 * 0x1000000u64) as u64)) as u64,
        k == 9 ==> ((x >> k) | (x << back)) as u64 == ((x / 0x200u32) as u64 + (((x % 0x200u32) as u64 * 0x800000u64) as u64)) as u64,
        k == 10 ==> ((x >> k) | (x << back)) as u64 == ((x / 0x400u32) as u64 + (((x % 0x400u32) as u64 * 0x400000u64) as u64)) as u64,
        k == 11 ==> ((x >> k) | (x << back)) as u64 == ((x / 0x800u32) as u64 + (((x % 0x800u32) as u64 * 0x200000u64) as u64)) as u64,
        k == 12 ==> ((x >> k) | (x << back)) as u64 == ((x / 0x1000u32) as u64 + (((x % 0x1000u32) as u64 * 0x100000u64) as u64)) as u64,
        k == 13 ==> ((x >> k) | (x << back)) as u64 == ((x / 0x2000u32) as u64 + (((x % 0x2000u32) as u64 * 0x80000u64) as u64)) as u64,
        k == 14 ==> ((x >> k) | (x << back)) as u64 == ((x / 0x4000u32) as u64 + (((x % 0x4000u32) as u64 * 0x40000u64) as u64)) as u64,
        k == 15 ==> ((x >> k) | (x << back)) as u64 == ((x / 0x8000u32) as u64 + (((x % 0x8000u32) as u64 * 0x20000u64) as u64)) as u64,
        k == 16 ==> ((x >> k) | (x << back)) as u64 == ((x / 0x10000u32) as u64 + (((x % 0x10000u32) as u64 * 0x10000u64) as u64)) as u64,
        k == 17 ==> ((x >> k) | (x << back)) as u64 == ((x / 0x20000u32) as u64 + (((x % 0x20000u32) as u64 * 0x8000u64) as u64)) as u64,
        k == 18 ==> ((x >> k) | (x << back)) as u64 == ((x / 0x40000u32) as u64 + (((x % 0x40000u32) as u64 * 0x4000u64) as u64)) as u64,
        k == 19 ==> ((x >> k) | (x << back)) as u64 == ((x / 0x80000u32) as u64 + (((x % 0x80000u32) as u64 * 0x2000u64) as u64)) as u64,
        k == 20 ==> ((x >> k) | (x << back)) as u64 == ((x / 0x100000u32) as u64 + (((x % 0x100000u32) as u64 * 0x1000u64) as u64)) as u64,
        k == 21 ==> ((x >> k) | (x << back)) as u64 == ((x / 0x200000u32) as u64 + (((x % 0x200000u32) as u64 * 0x800u64) as u64)) as u64,
        k == 22 ==> ((x >> k) | (x << back)) as u64 == ((x / 0x400000u32) as u64 + (((x % 0x400000u32) as u64 * 0x400u64) as u64)) as u64,
        k == 23 ==> ((x >> k) | (x << back)) as u64 == ((x / 0x800000u32) as u64 + (((x % 0x800000u32) as u64 * 0x200u64) as u64)) as u64,
        k == 24 ==> ((x >> k) | (x << back)) as u64 == ((x / 0x1000000u32) as u64 + (((x % 0x1000000u32) as u64 * 0x100u64) as u64)) as u64,
        k == 25 ==> ((x >> k) | (x << back)) as u64 == ((x / 0x2000000u32) as u64 + (((x % 0x2000000u32) as u64 * 0x80u64) as u64)) as u64,
        k == 26 ==> ((x >> k) | (x << back)) as u64 == ((x / 0x4000000u32) as u64 + (((x % 0x4000000u32) as u64 * 0x40u64) as u64)) as u64,
        k == 27 ==> ((x >> k) | (x << back)) as u64 == ((x / 0x8000000u32) as u64 + (((x % 0x8000000u32) as u64 * 0x20u64) as u64)) as u64,
        k == 28 ==> ((x >> k) | (x << back)) as u64 == ((x / 0x10000000u32) as u64 + (((x % 0x10000000u32) as u64 * 0x10u64) as u64)) as u64,
        k == 29 ==> ((x >> k) | (x << back)) as u64 == ((x / 0x20000000u32) as u64 + (((x % 0x20000000u32) as u64 * 0x8u64) as u64)) as u64,
        k == 30 ==> ((x >> k) | (x << back)) as u64 == ((x / 0x40000000u32) as u64 + (((x % 0x40000000u32) as u64 * 0x4u64) as u64)) as u64,
        k == 31 ==> ((x >> k) | (x << back)) as u64 == ((x / 0x80000000u32) as u64 + (((x % 0x80000000u32) as u64 * 0x2u64) as u64)) as u64,
{
}

/// Shifts `x` right by `n` bit positions.
pub fn shift_right(x: u32, n: u32) -> (r: u32)
    requires
        n < 32,
    ensures
        r == shr32(x, n),
{
    proof {
        lemma_shift_right_cases(x, n);
    }
    x >> n
}

/// Shifts `x` left by `n` bit positions.
pub fn shift_left(x: u32, n: u32) -> (r: u32)
    requires
        n < 32,
    ensures
        r == shl32(x, n),
{
    proof {
        lemma_shift_left_cases(x, n);
    }
    x << n
}

/// Reads the field of `w` that starts at bit `lo` and is `width` bits wide.
pub fn get_field(w: u32, lo: u32, width: u32) -> (r: u32)
    requires
        lo < 32,
        0 < width <= 32,
    ensures
        r == field(w, lo, width),
        r < pow2(width),
{
    proof {
        lemma_shift_right_cases(w, lo);
        lemma_mask_cases(w >> lo, width, (32 - width) as u32);
    }
    (w >> lo) & (0xFFFF_FFFFu32 >> (32 - width))
}

/// Tests bit `bit` of `x`.
pub fn test_bit(x: u32, bit: u32) -> (r: bool)
    requires
        bit < 32,
    ensures
        r == bit_is_set(x, bit),
{
    get_field(x, bit, 1) == 1
}

/// Sets or clears bit `bit` of `x`.
pub fn set_bit(x: u32, bit: u32, set: bool) -> (r: u32)
    requires
        bit < 32,
    ensures
        r == with_bit(x, bit, set),
{
    proof {
        lemma_weight_cases(x, bit);
        lemma_set_or_clear(x, 1u32 << bit);
    }
    if set {
        x | (1u32 << bit)
    } else {
        x & !(1u32 << bit)
    }
}

/// Rotates `x` right by `n` bit positions, `n` taken modulo 32.
pub fn rotate_right(x: u32, n: u32) -> (r: u32)
    ensures
        r == ror32(x, n),
{
    let k: u32 = n % 32;
    proof {
        if k != 0 {
            lemma_rotate_cases(x, k, (32 - k) as u32);
        }
    }
    if k == 0 {
        x
    } else {
        (x >> k) | (x << (32 - k))
    }
}

/// Rotates `x` left by `n` bit positions, `n` taken modulo 32.
pub fn rotate_left(x: u32, n: u32) -> (r: u32)
    ensures
        r == rol32(x, n),
{
    rotate_right(x, 32 - n % 32)
}

/// A field is below two to the power of its width, and a word is its
/// fields put together: what is below bit `lo`, and what is from there on.
pub proof fn lemma_field(w: u32, lo: u32, width: u32)
    requires
        lo < 32,
    ensures
        field(w, lo, width) < pow2(width),
        w == field(w, lo, 32) * pow2(lo) + w % (pow2(lo) as u32),
{
}

/// `x` rotated right by `n` bit positions, by the operations on bits.
pub open spec fn rotated(x: u32, n: u32) -> u32 {
    if n % 32 == 0 {
        x
    } else {
        (x >> (n % 32)) | (x << ((32 - n % 32) as u32))
    }
}

/// A rotation by what is missing to 32 undoes a rotation.
proof fn lemma_rotated_back(x: u32, n: u32, back: u32)
    by (bit_vector)
    requires
        back <= 32,
        n % 32 + back == 32,
    ensures
        rotated(rotated(x, n), back) == x,
        rotated(rotated(x, back), n) == x,
{
}

/// The rotation in arithmetic is the rotation by the operations on bits.
pub proof fn lemma_rotated(x: u32, n: u32)
    ensures
        ror32(x, n) == rotated(x, n),
{
    if n % 32 != 0 {
        lemma_rotate_cases(x, n % 32, (32 - n % 32) as u32);
    }
}

/// Rotating left undoes rotating right by the same amount, and the other
/// way round; a rotation moves bits and loses none.
pub proof fn lemma_rotate_inverse(x: u32, n: u32)
    ensures
        rol32(ror32(x, n), n) == x,
        ror32(rol32(x, n), n) == x,
{
    let back = (32 - n % 32) as u32;
    lemma_rotated(x, n);
    lemma_rotated(rotated(x, n), back);
    lemma_rotated(x, back);
    lemma_rotated(rotated(x, back), n);
    lemma_rotated_back(x, n, back);
}

/// Replacing the top four bits gives them the chosen values and leaves the
/// lower 28 bits as they were.
#[verifier::rlimit(100)]
pub proof fn lemma_with_nzcv(x: u32, n: bool, z: bool, c: bool, v: bool)
    ensures
        bit_is_set(with_nzcv(x, n, z, c, v), 31) == n,
        bit_is_set(with_nzcv(x, n, z, c, v), 30) == z,
        bit_is_set(with_nzcv(x, n, z, c, v), 29) == c,
        bit_is_set(with_nzcv(x, n, z, c, v), 28) == v,
        field(with_nzcv(x, n, z, c, v), 0, 28) == field(x, 0, 28),
        field(with_nzcv(x, n, z, c, v), 0, 5) == field(x, 0, 5),
        with_nzcv(
            x,
            bit_is_set(x, 31),
            bit_is_set(x, 30),
            bit_is_set(x, 29),
            bit_is_set(x, 28),
        ) == x,
{
}

/// The complement of a word is the word with every bit the other way.
pub proof fn lemma_complement(x: u32)
    by (bit_vector)
    ensures
        !x == complement(x),
{
}

} // verus!

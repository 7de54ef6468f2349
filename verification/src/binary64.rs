//! The IEEE 754 binary64 encoding of a number, read with integer arithmetic.
//!
//! A number is carried as the 64 bits of its encoding: one sign bit, eleven
//! exponent bits and fifty-two fraction bits. This module says what such a
//! pattern means; its two parts convert between patterns and the primitive
//! integers.

pub mod cast;
pub mod nearest;

pub use cast::{
    to_i128, to_i16, to_i32, to_i64, to_i8, to_isize, to_u128, to_u16, to_u32, to_u64, to_u8,
    to_usize, truncated, whole_magnitude,
};
pub use nearest::{
    from_i128, from_i16, from_i32, from_i64, from_i8, from_isize, from_magnitude, from_u128,
    from_u16, from_u32, from_u64, from_u8, from_usize, nearest_pattern,
};

use vstd::arithmetic::power2::{
    lemma2_to64, lemma2_to64_rest, lemma_pow2_adds, lemma_pow2_strictly_increases,
    lemma_pow2_unfold, pow2,
};
use vstd::prelude::*;

verus! {

/// The pattern's sign bit.
pub const SIGN_BIT: u64 = 0x8000_0000_0000_0000;

/// Two to the power 52: the bit that a normal number's significand holds
/// above its fraction bits.
pub const HIDDEN_BIT: u64 = 0x0010_0000_0000_0000;

/// The exponent field of infinities and NaNs.
pub const EXPONENT_MAX: u64 = 0x7ff;

pub open spec fn is_negative(bits: u64) -> bool {
    bits >= SIGN_BIT
}

pub open spec fn exponent_field(bits: u64) -> int {
    ((bits / HIDDEN_BIT) % 0x800) as int
}

pub open spec fn fraction_field(bits: u64) -> int {
    (bits % HIDDEN_BIT) as int
}

pub open spec fn is_nan(bits: u64) -> bool {
    exponent_field(bits) == EXPONENT_MAX && fraction_field(bits) != 0
}

pub open spec fn is_infinite(bits: u64) -> bool {
    exponent_field(bits) == EXPONENT_MAX && fraction_field(bits) == 0
}

pub open spec fn is_finite(bits: u64) -> bool {
    exponent_field(bits) < EXPONENT_MAX
}

/// The significand of a finite number: its absolute value is
/// `significand * 2^exponent`.
pub open spec fn significand(bits: u64) -> nat {
    if exponent_field(bits) == 0 {
        fraction_field(bits) as nat
    } else {
        (HIDDEN_BIT + fraction_field(bits)) as nat
    }
}

/// The power of two that scales the significand of a finite number.
pub open spec fn exponent(bits: u64) -> int {
    if exponent_field(bits) == 0 {
        -1074
    } else {
        exponent_field(bits) - 1075
    }
}

/// The absolute value of a finite number, rounded down to a whole number.
pub open spec fn whole_part(bits: u64) -> nat {
    if exponent(bits) >= 0 {
        significand(bits) * pow2(exponent(bits) as nat)
    } else {
        significand(bits) / pow2((-exponent(bits)) as nat)
    }
}

/// Whether the pattern encodes zero, of either sign.
pub open spec fn is_zero(bits: u64) -> bool {
    bits == 0 || bits == SIGN_BIT
}

/// Equality of two numbers as IEEE 754 has it: a NaN equals nothing, not even
/// itself, and the two zeros are equal.
pub open spec fn equal_numbers(a: u64, b: u64) -> bool {
    !is_nan(a) && !is_nan(b) && (a == b || (is_zero(a) && is_zero(b)))
}

/// Whether the pattern encodes a NaN.
pub fn encodes_nan(bits: u64) -> (nan: bool)
    ensures
        nan == is_nan(bits),
{
    (bits / HIDDEN_BIT) % 0x800 == EXPONENT_MAX && bits % HIDDEN_BIT != 0
}

/// Whether two patterns encode equal numbers.
pub fn same_number(a: u64, b: u64) -> (equal: bool)
    ensures
        equal == equal_numbers(a, b),
{
    !encodes_nan(a) && !encodes_nan(b) && (a == b || ((a == 0 || a == SIGN_BIT) && (b == 0 || b
        == SIGN_BIT)))
}

/// Two to the power `e`.
pub fn power_of_two(e: u32) -> (p: u128)
    requires
        e <= 127,
    ensures
        p == pow2(e as nat),
{
    let mut p: u128 = 1;
    let mut i: u32 = 0;
    proof {
        lemma2_to64();
    }
    while i < e
        invariant
            i <= e <= 127,
            p == pow2(i as nat),
        decreases e - i,
    {
        proof {
            lemma_pow2_unfold((i + 1) as nat);
            lemma_powers_of_two();
            if i + 1 < 127 {
                lemma_pow2_strictly_increases((i + 1) as nat, 127);
            }
        }
        p = p * 2;
        i = i + 1;
    }
    p
}

pub proof fn lemma_powers_of_two()
    ensures
        pow2(127) == 0x8000_0000_0000_0000_0000_0000_0000_0000,
        pow2(128) == 0x1_0000_0000_0000_0000_0000_0000_0000_0000,
        pow2(75) == 0x800_0000_0000_0000_0000,
        pow2(76) == 0x1000_0000_0000_0000_0000,
        pow2(52) == 0x10_0000_0000_0000,
        pow2(53) == 0x20_0000_0000_0000,
{
    lemma2_to64();
    lemma2_to64_rest();
    lemma_pow2_adds(64, 63);
    lemma_pow2_adds(64, 64);
    lemma_pow2_adds(64, 11);
    lemma_pow2_adds(64, 12);
}

/// Whether the sign bit of the pattern is set.
pub fn sign_is_set(bits: u64) -> (negative: bool)
    ensures
        negative == is_negative(bits),
{
    bits >= SIGN_BIT
}

} // verus!

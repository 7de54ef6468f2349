//! The numeric cast of a number to the primitive integers: rounded toward
//! zero, and held within the range of the integer type.

use crate::binary64::{
    exponent, is_infinite, is_nan, is_negative, lemma_powers_of_two, power_of_two, sign_is_set,
    significand, whole_part, EXPONENT_MAX, HIDDEN_BIT,
};
use vstd::arithmetic::div_mod::lemma_basic_div;
use vstd::arithmetic::power2::{lemma_pow2_pos, lemma_pow2_strictly_increases, pow2};
use vstd::prelude::*;

verus! {

/// The integer between `lowest` and `highest` that a numeric cast gives: a
/// NaN gives zero, any other number is rounded toward zero and then held
/// within the two bounds.
pub open spec fn truncated(bits: u64, lowest: int, highest: int) -> int {
    if is_nan(bits) {
        0
    } else if is_negative(bits) {
        if is_infinite(bits) || -whole_part(bits) < lowest {
            lowest
        } else {
            -whole_part(bits)
        }
    } else {
        if is_infinite(bits) || whole_part(bits) > highest {
            highest
        } else {
            whole_part(bits) as int
        }
    }
}

/// What `whole_magnitude` returns: the whole part, held within `u128`.
pub open spec fn held_whole_part(bits: u64) -> nat {
    if is_nan(bits) {
        0
    } else if is_infinite(bits) || whole_part(bits) > u128::MAX {
        u128::MAX as nat
    } else {
        whole_part(bits)
    }
}

/// The whole part of the number's absolute value, held within `u128`; zero
/// for a NaN.
pub fn whole_magnitude(bits: u64) -> (m: u128)
    ensures
        m == held_whole_part(bits),
{
    let field: u64 = (bits / HIDDEN_BIT) % 0x800;
    let fraction: u64 = bits % HIDDEN_BIT;
    proof {
        lemma_powers_of_two();
    }
    if field == EXPONENT_MAX {
        return if fraction == 0 {
            u128::MAX
        } else {
            0
        };
    }
    if field < 1023 {
        proof {
            let down = (-exponent(bits)) as nat;
            assert(down >= 53);
            if down > 53 {
                lemma_pow2_strictly_increases(53, down);
            }
            assert(significand(bits) < pow2(down));
            lemma_basic_div(significand(bits) as int, pow2(down) as int);
        }
        return 0;
    }
    let digits: u128 = (HIDDEN_BIT + fraction) as u128;
    if field < 1075 {
        let down: u32 = (1075 - field) as u32;
        let divisor = power_of_two(down);
        proof {
            lemma_pow2_pos(down as nat);
        }
        digits / divisor
    } else if field - 1075 <= 75 {
        let up: u32 = (field - 1075) as u32;
        let factor = power_of_two(up);
        proof {
            if up < 75 {
                lemma_pow2_strictly_increases(up as nat, 75);
            }
            assert(digits * factor <= 0x1f_ffff_ffff_ffff * 0x800_0000_0000_0000_0000)
                by (nonlinear_arith)
                requires
                    digits <= 0x1f_ffff_ffff_ffff,
                    factor <= 0x800_0000_0000_0000_0000,
            ;
        }
        digits * factor
    } else {
        proof {
            let up = (field - 1075) as nat;
            if up > 76 {
                lemma_pow2_strictly_increases(76, up);
            }
            assert(significand(bits) * pow2(up) >= 0x10_0000_0000_0000
                * 0x1000_0000_0000_0000_0000) by (nonlinear_arith)
                requires
                    significand(bits) >= 0x10_0000_0000_0000,
                    pow2(up) >= 0x1000_0000_0000_0000_0000,
            ;
        }
        u128::MAX
    }
}

/// The numeric cast to an unsigned integer type whose greatest value is
/// `highest`.
fn to_unsigned(bits: u64, highest: u128) -> (n: u128)
    ensures
        n == truncated(bits, 0, highest as int),
{
    if sign_is_set(bits) {
        0
    } else {
        let m = whole_magnitude(bits);
        if m > highest {
            highest
        } else {
            m
        }
    }
}

/// The numeric cast to a signed integer type whose greatest value is
/// `highest`.
fn to_signed(bits: u64, highest: i128) -> (n: i128)
    requires
        highest >= 0,
    ensures
        n == truncated(bits, -highest - 1, highest as int),
{
    let m = whole_magnitude(bits);
    if m > highest as u128 {
        if sign_is_set(bits) {
            -highest - 1
        } else {
            highest
        }
    } else if sign_is_set(bits) {
        -(m as i128)
    } else {
        m as i128
    }
}

/// The number as `u8`: rounded toward zero and held within the type's range.
pub fn to_u8(bits: u64) -> (n: u8)
    ensures
        n == truncated(bits, u8::MIN as int, u8::MAX as int),
{
    to_unsigned(bits, u8::MAX as u128) as u8
}

/// The number as `u16`: rounded toward zero and held within the type's range.
pub fn to_u16(bits: u64) -> (n: u16)
    ensures
        n == truncated(bits, u16::MIN as int, u16::MAX as int),
{
    to_unsigned(bits, u16::MAX as u128) as u16
}

/// The number as `u32`: rounded toward zero and held within the type's range.
pub fn to_u32(bits: u64) -> (n: u32)
    ensures
        n == truncated(bits, u32::MIN as int, u32::MAX as int),
{
    to_unsigned(bits, u32::MAX as u128) as u32
}

/// The number as `u64`: rounded toward zero and held within the type's range.
pub fn to_u64(bits: u64) -> (n: u64)
    ensures
        n == truncated(bits, u64::MIN as int, u64::MAX as int),
{
    to_unsigned(bits, u64::MAX as u128) as u64
}

/// The number as `u128`: rounded toward zero and held within the type's range.
pub fn to_u128(bits: u64) -> (n: u128)
    ensures
        n == truncated(bits, u128::MIN as int, u128::MAX as int),
{
    to_unsigned(bits, u128::MAX as u128) as u128
}

/// The number as `usize`: rounded toward zero and held within the type's range.
pub fn to_usize(bits: u64) -> (n: usize)
    ensures
        n == truncated(bits, usize::MIN as int, usize::MAX as int),
{
    to_unsigned(bits, usize::MAX as u128) as usize
}

/// The number as `i8`: rounded toward zero and held within the type's range.
pub fn to_i8(bits: u64) -> (n: i8)
    ensures
        n == truncated(bits, i8::MIN as int, i8::MAX as int),
{
    to_signed(bits, i8::MAX as i128) as i8
}

/// The number as `i16`: rounded toward zero and held within the type's range.
pub fn to_i16(bits: u64) -> (n: i16)
    ensures
        n == truncated(bits, i16::MIN as int, i16::MAX as int),
{
    to_signed(bits, i16::MAX as i128) as i16
}

/// The number as `i32`: rounded toward zero and held within the type's range.
pub fn to_i32(bits: u64) -> (n: i32)
    ensures
        n == truncated(bits, i32::MIN as int, i32::MAX as int),
{
    to_signed(bits, i32::MAX as i128) as i32
}

/// The number as `i64`: rounded toward zero and held within the type's range.
pub fn to_i64(bits: u64) -> (n: i64)
    ensures
        n == truncated(bits, i64::MIN as int, i64::MAX as int),
{
    to_signed(bits, i64::MAX as i128) as i64
}

/// The number as `i128`: rounded toward zero and held within the type's range.
pub fn to_i128(bits: u64) -> (n: i128)
    ensures
        n == truncated(bits, i128::MIN as int, i128::MAX as int),
{
    to_signed(bits, i128::MAX as i128) as i128
}

/// The number as `isize`: rounded toward zero and held within the type's range.
pub fn to_isize(bits: u64) -> (n: isize)
    ensures
        n == truncated(bits, isize::MIN as int, isize::MAX as int),
{
    to_signed(bits, isize::MAX as i128) as isize
}

} // verus!

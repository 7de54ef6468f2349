//! The number that stands for a primitive integer: the integer itself
//! where the encoding holds it, else the nearest number that the encoding
//! has.

use crate::binary64::cast::truncated;
use crate::binary64::{
    exponent, exponent_field, fraction_field, is_finite, is_nan, is_negative,
    lemma_powers_of_two, power_of_two, significand, whole_part, HIDDEN_BIT, SIGN_BIT,
};
use vstd::arithmetic::div_mod::{
    lemma_div_multiples_vanish, lemma_fundamental_div_mod, lemma_fundamental_div_mod_converse,
    lemma_mod_bound,
};
use vstd::arithmetic::power2::{
    lemma2_to64, lemma_pow2_adds, lemma_pow2_pos, lemma_pow2_strictly_increases,
    lemma_pow2_unfold, pow2,
};
use vstd::prelude::*;

verus! {

/// The place of the highest set bit of `m`: the `k` with
/// `2^k <= m < 2^(k+1)`, and zero for zero.
pub open spec fn binade(m: nat) -> nat
    decreases m,
{
    if m < 2 {
        0
    } else {
        1 + binade(m / 2)
    }
}

/// The pattern made of a sign, an exponent field and a fraction field.
pub open spec fn pattern(negative: bool, field: nat, fraction: nat) -> u64 {
    ((if negative {
        SIGN_BIT as nat
    } else {
        0
    }) + field * HIDDEN_BIT + fraction) as u64
}

/// `m` in units of `unit`, rounded to the nearest whole number of units;
/// of two equally near, the even one.
pub open spec fn rounded_half_even(m: nat, unit: nat) -> nat {
    let whole = m / unit;
    let rest = m % unit;
    if 2 * rest > unit || (2 * rest == unit && whole % 2 == 1) {
        whole + 1
    } else {
        whole
    }
}

/// The encoding of the number that stands for the integer `n`: `n` itself
/// where 53 significant bits hold it, else `n` rounded to 53 significant
/// bits, to the nearest and on a tie to the even significand.
pub open spec fn nearest_pattern(n: int) -> u64 {
    let m = (if n < 0 {
        -n
    } else {
        n
    }) as nat;
    let k = binade(m);
    if n == 0 {
        0
    } else if k <= 52 {
        pattern(n < 0, 1023 + k, (m * pow2((52 - k) as nat) - HIDDEN_BIT) as nat)
    } else {
        let significant = rounded_half_even(m, pow2((k - 52) as nat));
        if significant == 2 * HIDDEN_BIT {
            pattern(n < 0, 1024 + k, 0)
        } else {
            pattern(n < 0, 1023 + k, (significant - HIDDEN_BIT) as nat)
        }
    }
}

/// A whole number lies in the binade that its highest bit names.
pub proof fn lemma_binade(m: nat)
    requires
        m >= 1,
    ensures
        pow2(binade(m)) <= m < 2 * pow2(binade(m)),
    decreases m,
{
    lemma2_to64();
    if m >= 2 {
        lemma_binade(m / 2);
        lemma_pow2_unfold(binade(m));
    }
}

/// The pattern of a sign, an exponent field below 2047 and a fraction below
/// two to the power 52 holds them as its fields.
pub proof fn lemma_pattern_fields(negative: bool, field: nat, fraction: nat)
    requires
        field < 2047,
        fraction < HIDDEN_BIT,
    ensures
        is_negative(pattern(negative, field, fraction)) == negative,
        exponent_field(pattern(negative, field, fraction)) == field,
        fraction_field(pattern(negative, field, fraction)) == fraction,
        is_finite(pattern(negative, field, fraction)),
{
    let sign: nat = if negative {
        SIGN_BIT as nat
    } else {
        0
    };
    assert(field * HIDDEN_BIT <= 2046 * HIDDEN_BIT) by (nonlinear_arith)
        requires
            field <= 2046,
    ;
    let bits = pattern(negative, field, fraction);
    assert(bits == sign + field * HIDDEN_BIT + fraction);
    let high = (if negative {
        2048nat
    } else {
        0nat
    }) + field;
    assert(bits == high * HIDDEN_BIT + fraction) by (nonlinear_arith)
        requires
            bits == sign + field * HIDDEN_BIT + fraction,
            sign == (if negative {
                2048nat
            } else {
                0nat
            }) * HIDDEN_BIT,
            high == (if negative {
                2048nat
            } else {
                0nat
            }) + field,
    ;
    lemma_fundamental_div_mod_converse(
        bits as int,
        HIDDEN_BIT as int,
        high as int,
        fraction as int,
    );
}

/// The number that stands for an integer is the nearest that the encoding
/// has. Where the number's exponent is zero or less, it is the integer
/// itself. Where it is greater, the number lies within half a unit of its
/// last place of the integer, and where it lies at exactly half a unit, its
/// significand is even. A power of two that lies above the integer lies
/// within a quarter of a unit: below a power of two the numbers stand twice
/// as close.
pub proof fn lemma_nearest_pattern_is_near(n: int)
    requires
        -0x1_0000_0000_0000_0000_0000_0000_0000_0000 < n
            < 0x1_0000_0000_0000_0000_0000_0000_0000_0000,
    ensures
        is_finite(nearest_pattern(n)),
        n != 0 ==> is_negative(nearest_pattern(n)) == (n < 0),
        n != 0 ==> exponent_field(nearest_pattern(n)) > 0,
        exponent(nearest_pattern(n)) <= 0 ==> significand(nearest_pattern(n)) == (if n < 0 {
            -n
        } else {
            n
        }) * pow2((-exponent(nearest_pattern(n))) as nat),
        exponent(nearest_pattern(n)) > 0 ==> ({
            let magnitude = if n < 0 {
                -n
            } else {
                n
            };
            let unit = pow2(exponent(nearest_pattern(n)) as nat) as int;
            let off = magnitude - significand(nearest_pattern(n)) * unit;
            &&& -unit <= 2 * off <= unit
            &&& (2 * off == unit || 2 * off == -unit) ==> significand(nearest_pattern(n)) % 2 == 0
            &&& significand(nearest_pattern(n)) == HIDDEN_BIT && off < 0 ==> -unit <= 4 * off
        }),
{
    lemma2_to64();
    lemma_powers_of_two();
    let bits = nearest_pattern(n);
    if n == 0 {
        assert(significand(0) == 0);
        assert(0 * pow2(1074) == 0) by (nonlinear_arith);
    } else {
        let m = (if n < 0 {
            -n
        } else {
            n
        }) as nat;
        let k = binade(m);
        lemma_binade(m);
        assert(k <= 127) by {
            if k > 127 {
                if k > 128 {
                    lemma_pow2_strictly_increases(128, k);
                }
            }
        }
        if k <= 52 {
            let up = (52 - k) as nat;
            lemma_pow2_adds(k, up);
            lemma_pow2_pos(up);
            let scaled = m * pow2(up);
            assert(scaled >= pow2(k) * pow2(up)) by (nonlinear_arith)
                requires
                    scaled == m * pow2(up),
                    m >= pow2(k),
            ;
            assert(scaled < 2 * (pow2(k) * pow2(up))) by (nonlinear_arith)
                requires
                    scaled == m * pow2(up),
                    m < 2 * pow2(k),
                    pow2(up) > 0,
            ;
            lemma_pattern_fields(n < 0, 1023 + k, (scaled - HIDDEN_BIT) as nat);
            assert(significand(bits) == scaled);
            assert(exponent(bits) == k - 52);
        } else {
            let down = (k - 52) as nat;
            let unit = pow2(down);
            lemma_pow2_adds(down, 52);
            lemma_pow2_pos(down);
            lemma_pow2_unfold(down);
            lemma_pow2_unfold(down + 1);
            let whole = m / unit;
            let rest = m % unit;
            lemma_fundamental_div_mod(m as int, unit as int);
            lemma_mod_bound(m as int, unit as int);
            assert(whole >= HIDDEN_BIT) by (nonlinear_arith)
                requires
                    m == unit * whole + rest,
                    0 <= rest < unit,
                    m >= unit * HIDDEN_BIT,
            ;
            assert(whole < 2 * HIDDEN_BIT) by (nonlinear_arith)
                requires
                    m == unit * whole + rest,
                    0 <= rest < unit,
                    m < 2 * (unit * HIDDEN_BIT),
            ;
            let significant = rounded_half_even(m, unit);
            if significant == 2 * HIDDEN_BIT {
                lemma_pattern_fields(n < 0, 1024 + k, 0);
                assert(significand(bits) == HIDDEN_BIT);
                assert(exponent(bits) == down + 1);
                assert(whole == 2 * HIDDEN_BIT - 1);
                let wide = pow2(down + 1) as int;
                assert(m - HIDDEN_BIT * wide == rest - unit) by (nonlinear_arith)
                    requires
                        m == unit * whole + rest,
                        whole == 2 * HIDDEN_BIT - 1,
                        wide == 2 * unit,
                ;
            } else {
                lemma_pattern_fields(n < 0, 1023 + k, (significant - HIDDEN_BIT) as nat);
                assert(significand(bits) == significant);
                assert(exponent(bits) == down);
                if significant == whole {
                    assert(m - significant * unit == rest) by (nonlinear_arith)
                        requires
                            m == unit * whole + rest,
                            significant == whole,
                    ;
                } else {
                    assert(m - significant * unit == rest - unit) by (nonlinear_arith)
                        requires
                            m == unit * whole + rest,
                            significant == whole + 1,
                    ;
                }
            }
        }
    }
}

/// An integer of at most 53 significant bits is held without loss: the
/// number that stands for it casts back to it, in every integer range that
/// holds it.
pub proof fn lemma_exact_integers_come_back(n: int, lowest: int, highest: int)
    requires
        -0x20_0000_0000_0000 < n < 0x20_0000_0000_0000,
        lowest <= n <= highest,
    ensures
        !is_nan(nearest_pattern(n)),
        truncated(nearest_pattern(n), lowest, highest) == n,
{
    lemma2_to64();
    lemma_powers_of_two();
    if n != 0 {
        let m = (if n < 0 {
            -n
        } else {
            n
        }) as nat;
        let k = binade(m);
        lemma_binade(m);
        assert(k <= 52) by {
            if k > 52 {
                if k > 53 {
                    lemma_pow2_strictly_increases(53, k);
                }
            }
        }
        let up = (52 - k) as nat;
        lemma_pow2_adds(k, up);
        lemma_pow2_pos(up);
        let scaled = m * pow2(up);
        assert(scaled >= pow2(k) * pow2(up)) by (nonlinear_arith)
            requires
                scaled == m * pow2(up),
                m >= pow2(k),
        ;
        assert(scaled < 2 * (pow2(k) * pow2(up))) by (nonlinear_arith)
            requires
                scaled == m * pow2(up),
                m < 2 * pow2(k),
                pow2(up) > 0,
        ;
        lemma_pattern_fields(n < 0, 1023 + k, (scaled - HIDDEN_BIT) as nat);
        let bits = nearest_pattern(n);
        assert(significand(bits) == scaled);
        assert(exponent(bits) == k - 52);
        if up == 0 {
            assert(scaled == m) by (nonlinear_arith)
                requires
                    scaled == m * pow2(up),
                    pow2(up) == 1,
            ;
            assert(m * pow2(0) == m) by (nonlinear_arith)
                requires
                    pow2(0) == 1,
            ;
        } else {
            lemma_div_multiples_vanish(m as int, pow2(up) as int);
            assert(scaled == pow2(up) * m) by (nonlinear_arith)
                requires
                    scaled == m * pow2(up),
            ;
        }
        assert(whole_part(bits) == m);
    } else {
        assert(whole_part(0) == 0) by {
            assert(significand(0) == 0);
            lemma_pow2_pos(1074);
        }
    }
}

/// The encoding of the number that stands for the whole number of the given
/// sign and magnitude.
pub fn from_magnitude(negative: bool, magnitude: u128) -> (bits: u64)
    ensures
        bits == nearest_pattern(
            if negative {
                -(magnitude as int)
            } else {
                magnitude as int
            },
        ),
{
    if magnitude == 0 {
        return 0;
    }
    let mut k: u32 = 0;
    let mut rest: u128 = magnitude;
    proof {
        lemma2_to64();
    }
    while rest >= 2
        invariant
            rest >= 1,
            k + binade(rest as nat) == binade(magnitude as nat),
            rest * pow2(k as nat) <= magnitude,
            k <= 127,
        decreases rest,
    {
        proof {
            lemma_pow2_unfold((k + 1) as nat);
            lemma_powers_of_two();
            assert((rest / 2) * pow2((k + 1) as nat) <= rest * pow2(k as nat)) by (nonlinear_arith)
                requires
                    pow2((k + 1) as nat) == 2 * pow2(k as nat),
                    rest >= 0,
            ;
            if k >= 127 {
                lemma_pow2_unfold(128);
                assert((rest / 2) * pow2(128) >= pow2(128)) by (nonlinear_arith)
                    requires
                        rest / 2 >= 1,
                ;
            }
        }
        rest = rest / 2;
        k = k + 1;
    }
    proof {
        lemma_binade(magnitude as nat);
        lemma_powers_of_two();
        lemma_pow2_unfold((k + 1) as nat);
    }
    let sign: u64 = if negative {
        SIGN_BIT
    } else {
        0
    };
    if k <= 52 {
        let factor = power_of_two(52 - k);
        proof {
            lemma_pow2_adds(k as nat, (52 - k) as nat);
            let unit = pow2(k as nat);
            assert(magnitude * factor >= unit * factor) by (nonlinear_arith)
                requires
                    magnitude >= unit,
            ;
            assert(magnitude * factor < 2 * unit * factor) by (nonlinear_arith)
                requires
                    magnitude < 2 * unit,
                    factor > 0,
            ;
            assert(2 * unit * factor == 2 * (unit * factor)) by (nonlinear_arith);
            lemma_pattern_fields(
                negative,
                (1023 + k) as nat,
                (magnitude * factor - HIDDEN_BIT) as nat,
            );
        }
        let fraction: u64 = (magnitude * factor - HIDDEN_BIT as u128) as u64;
        assert((1023 + k) * HIDDEN_BIT <= 1075 * HIDDEN_BIT) by (nonlinear_arith)
            requires
                k <= 52,
        ;
        sign + (1023 + k as u64) * HIDDEN_BIT + fraction
    } else {
        let unit = power_of_two(k - 52);
        proof {
            lemma_pow2_adds((k - 52) as nat, 52);
            lemma_pow2_pos((k - 52) as nat);
            lemma_pow2_unfold((k - 52) as nat);
            if k - 52 < 75 {
                lemma_pow2_strictly_increases((k - 52) as nat, 75);
            }
            lemma_fundamental_div_mod(magnitude as int, unit as int);
            lemma_mod_bound(magnitude as int, unit as int);
            let whole = magnitude as int / unit as int;
            let left = magnitude as int % unit as int;
            assert(whole >= HIDDEN_BIT) by (nonlinear_arith)
                requires
                    magnitude == unit * whole + left,
                    0 <= left < unit,
                    magnitude >= unit * HIDDEN_BIT,
            ;
            assert(whole < 2 * HIDDEN_BIT) by (nonlinear_arith)
                requires
                    magnitude == unit * whole + left,
                    0 <= left < unit,
                    magnitude < 2 * (unit * HIDDEN_BIT),
            ;
        }
        let whole: u128 = magnitude / unit;
        let left: u128 = magnitude % unit;
        let significant: u128 = if 2 * left > unit || (2 * left == unit && whole % 2 == 1) {
            whole + 1
        } else {
            whole
        };
        assert(significant == rounded_half_even(magnitude as nat, unit as nat));
        assert((1024 + k) * HIDDEN_BIT <= 1151 * HIDDEN_BIT) by (nonlinear_arith)
            requires
                k <= 127,
        ;
        if significant == 2 * (HIDDEN_BIT as u128) {
            proof {
                lemma_pattern_fields(negative, (1024 + k) as nat, 0);
            }
            sign + (1024 + k as u64) * HIDDEN_BIT
        } else {
            proof {
                lemma_pattern_fields(
                    negative,
                    (1023 + k) as nat,
                    (significant - HIDDEN_BIT) as nat,
                );
            }
            sign + (1023 + k as u64) * HIDDEN_BIT + (significant - HIDDEN_BIT as u128) as u64
        }
    }
}

/// The encoding of the number that stands for `n`.
pub fn from_u8(n: u8) -> (bits: u64)
    ensures
        bits == nearest_pattern(n as int),
{
    from_magnitude(false, n as u128)
}

/// The encoding of the number that stands for `n`.
pub fn from_u16(n: u16) -> (bits: u64)
    ensures
        bits == nearest_pattern(n as int),
{
    from_magnitude(false, n as u128)
}

/// The encoding of the number that stands for `n`.
pub fn from_u32(n: u32) -> (bits: u64)
    ensures
        bits == nearest_pattern(n as int),
{
    from_magnitude(false, n as u128)
}

/// The encoding of the number that stands for `n`.
pub fn from_u64(n: u64) -> (bits: u64)
    ensures
        bits == nearest_pattern(n as int),
{
    from_magnitude(false, n as u128)
}

/// The encoding of the number that stands for `n`.
pub fn from_u128(n: u128) -> (bits: u64)
    ensures
        bits == nearest_pattern(n as int),
{
    from_magnitude(false, n as u128)
}

/// The encoding of the number that stands for `n`.
pub fn from_usize(n: usize) -> (bits: u64)
    ensures
        bits == nearest_pattern(n as int),
{
    from_magnitude(false, n as u128)
}

/// The encoding of the number that stands for `n`.
pub fn from_i8(n: i8) -> (bits: u64)
    ensures
        bits == nearest_pattern(n as int),
{
    if n < 0 {
        from_magnitude(true, (-(n + 1)) as u128 + 1)
    } else {
        from_magnitude(false, n as u128)
    }
}

/// The encoding of the number that stands for `n`.
pub fn from_i16(n: i16) -> (bits: u64)
    ensures
        bits == nearest_pattern(n as int),
{
    if n < 0 {
        from_magnitude(true, (-(n + 1)) as u128 + 1)
    } else {
        from_magnitude(false, n as u128)
    }
}

/// The encoding of the number that stands for `n`.
pub fn from_i32(n: i32) -> (bits: u64)
    ensures
        bits == nearest_pattern(n as int),
{
    if n < 0 {
        from_magnitude(true, (-(n + 1)) as u128 + 1)
    } else {
        from_magnitude(false, n as u128)
    }
}

/// The encoding of the number that stands for `n`.
pub fn from_i64(n: i64) -> (bits: u64)
    ensures
        bits == nearest_pattern(n as int),
{
    if n < 0 {
        from_magnitude(true, (-(n + 1)) as u128 + 1)
    } else {
        from_magnitude(false, n as u128)
    }
}

/// The encoding of the number that stands for `n`.
pub fn from_i128(n: i128) -> (bits: u64)
    ensures
        bits == nearest_pattern(n as int),
{
    if n < 0 {
        from_magnitude(true, (-(n + 1)) as u128 + 1)
    } else {
        from_magnitude(false, n as u128)
    }
}

/// The encoding of the number that stands for `n`.
pub fn from_isize(n: isize) -> (bits: u64)
    ensures
        bits == nearest_pattern(n as int),
{
    if n < 0 {
        from_magnitude(true, (-(n + 1)) as u128 + 1)
    } else {
        from_magnitude(false, n as u128)
    }
}

} // verus!

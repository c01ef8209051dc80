//! Single-precision numbers, read from their bit patterns with integer
//! arithmetic alone.
//!
//! A bit pattern holds a sign, eight bits of exponent and twenty-three bits
//! of fraction. A finite pattern stands for the number
//! `significand * 2^binary_exponent`, negated if the sign is set.

use vstd::prelude::*;
use vstd::arithmetic::power2::{
    lemma2_to64, lemma_pow2_strictly_increases, lemma_pow2_unfold, pow2,
};
use crate::fixed::{clip, UNIT};

verus! {

/// The low twenty-three bits.
pub open spec fn fraction_bits(bits: u32) -> int {
    bits as int % 0x80_0000
}

/// The eight bits above the fraction.
pub open spec fn exponent_bits(bits: u32) -> int {
    (bits as int / 0x80_0000) % 0x100
}

/// Whether the sign is set.
pub open spec fn is_negative(bits: u32) -> bool {
    bits >= 0x8000_0000
}

/// Whether the pattern stands for no number at all.
pub open spec fn is_nan(bits: u32) -> bool {
    exponent_bits(bits) == 0xff && fraction_bits(bits) != 0
}

/// Whether the pattern stands for an infinity.
pub open spec fn is_infinite(bits: u32) -> bool {
    exponent_bits(bits) == 0xff && fraction_bits(bits) == 0
}

/// Whether the pattern stands for a number.
pub open spec fn is_finite(bits: u32) -> bool {
    exponent_bits(bits) != 0xff
}

/// Whether the pattern stands for a number above zero.
pub open spec fn is_positive_finite(bits: u32) -> bool {
    is_finite(bits) && !is_negative(bits) && significand(bits) > 0
}

/// The integer that a finite pattern multiplies by a power of two: the
/// fraction, with the implicit leading bit unless the exponent is zero.
pub open spec fn significand(bits: u32) -> int {
    if exponent_bits(bits) == 0 {
        fraction_bits(bits)
    } else {
        0x80_0000 + fraction_bits(bits)
    }
}

/// The power of two by which a finite pattern multiplies its significand.
pub open spec fn binary_exponent(bits: u32) -> int {
    if exponent_bits(bits) == 0 {
        -149
    } else {
        exponent_bits(bits) - 150
    }
}

/// The absolute value of a finite pattern times `factor`, rounded down.
pub open spec fn magnitude_times(bits: u32, factor: int) -> int {
    let e = binary_exponent(bits);
    if e >= 0 {
        significand(bits) * factor * pow2(e as nat)
    } else {
        significand(bits) * factor / (pow2((-e) as nat) as int)
    }
}

/// The number that `bits` stands for, in millionths: rounded towards zero,
/// stopping at the ends of the 64-bit range, and zero for a pattern that
/// stands for no number.
pub open spec fn micros(bits: u32) -> int {
    if is_nan(bits) {
        0
    } else if is_infinite(bits) {
        if is_negative(bits) {
            i64::MIN as int
        } else {
            i64::MAX as int
        }
    } else if is_negative(bits) {
        clip(-magnitude_times(bits, UNIT as int))
    } else {
        clip(magnitude_times(bits, UNIT as int))
    }
}

/// The number of whole pixels in the length that `bits` stands for when it
/// is enlarged `zoom` times: rounded down, at most `u32::MAX`, and zero for
/// a negative length and for a pattern that stands for no number.
pub open spec fn pixels(bits: u32, zoom: int) -> int {
    if is_nan(bits) || is_negative(bits) {
        0
    } else if is_infinite(bits) {
        u32::MAX as int
    } else if magnitude_times(bits, zoom) > u32::MAX {
        u32::MAX as int
    } else {
        magnitude_times(bits, zoom)
    }
}

/// Two to the power `e`.
fn power_of_two(e: u32) -> (r: u128)
    requires
        e < 64,
    ensures
        r == pow2(e as nat),
        1 <= r < 0x1_0000_0000_0000_0000,
{
    let mut r: u128 = 1;
    let mut i: u32 = 0;
    proof {
        lemma2_to64();
    }
    while i < e
        invariant
            i <= e < 64,
            r == pow2(i as nat),
            1 <= r,
            pow2(64) == 0x1_0000_0000_0000_0000,
        decreases e - i,
    {
        proof {
            lemma_pow2_unfold((i + 1) as nat);
            if i + 1 < 64 {
                lemma_pow2_strictly_increases((i + 1) as nat, 64);
            }
        }
        r = r * 2;
        i = i + 1;
    }
    proof {
        lemma_pow2_strictly_increases(e as nat, 64);
    }
    r
}

/// The absolute value of a finite pattern times `factor`, rounded down and
/// cut to `cap`.
fn capped_magnitude(bits: u32, factor: u32, cap: u64) -> (r: u64)
    requires
        is_finite(bits),
        factor <= 0x10_0000,
    ensures
        r == if magnitude_times(bits, factor as int) > cap {
            cap as int
        } else {
            magnitude_times(bits, factor as int)
        },
{
    let exponent: u32 = (bits / 0x80_0000) % 0x100;
    let fraction: u32 = bits % 0x80_0000;
    let significand: u64 = if exponent == 0 {
        fraction as u64
    } else {
        fraction as u64 + 0x80_0000
    };
    assert(significand * factor <= 0x100_0000 * 0x10_0000) by (nonlinear_arith)
        requires
            0 <= significand <= 0x100_0000,
            0 <= factor <= 0x10_0000,
    ;
    let numerator: u64 = significand * (factor as u64);
    if exponent >= 150 {
        let shift: u32 = exponent - 150;
        if numerator == 0 {
            assert(0 * pow2(shift as nat) == 0);
            0
        } else if shift >= 64 {
            proof {
                lemma2_to64();
                if shift > 64 {
                    lemma_pow2_strictly_increases(64, shift as nat);
                }
                assert(numerator * pow2(shift as nat) >= 0x1_0000_0000_0000_0000)
                    by (nonlinear_arith)
                    requires
                        numerator >= 1,
                        pow2(shift as nat) >= 0x1_0000_0000_0000_0000,
                ;
            }
            cap
        } else {
            let power: u128 = power_of_two(shift);
            assert(numerator * power <= 0x1000_0000_0000 * 0x1_0000_0000_0000_0000)
                by (nonlinear_arith)
                requires
                    0 <= numerator <= 0x1000_0000_0000,
                    0 <= power <= 0x1_0000_0000_0000_0000,
            ;
            let product: u128 = (numerator as u128) * power;
            if product > cap as u128 {
                cap
            } else {
                product as u64
            }
        }
    } else {
        let shift: u32 = if exponent == 0 {
            149
        } else {
            150 - exponent
        };
        if shift >= 64 {
            proof {
                lemma2_to64();
                if shift > 64 {
                    lemma_pow2_strictly_increases(64, shift as nat);
                }
                let d = pow2(shift as nat) as int;
                assert(numerator as int / d == 0) by (nonlinear_arith)
                    requires
                        0 <= numerator < d,
                ;
            }
            0
        } else {
            let power: u128 = power_of_two(shift);
            let quotient: u128 = (numerator as u128) / power;
            assert(quotient <= numerator) by (nonlinear_arith)
                requires
                    quotient == numerator as int / power as int,
                    0 <= numerator,
                    1 <= power,
            ;
            if quotient > cap as u128 {
                cap
            } else {
                quotient as u64
            }
        }
    }
}

/// Reads a single-precision number as a count of millionths.
pub fn micros_from_bits(bits: u32) -> (r: i64)
    ensures
        r == micros(bits),
{
    let exponent: u32 = (bits / 0x80_0000) % 0x100;
    let fraction: u32 = bits % 0x80_0000;
    let negative: bool = bits >= 0x8000_0000;
    if exponent == 0xff {
        if fraction != 0 {
            0
        } else if negative {
            i64::MIN
        } else {
            i64::MAX
        }
    } else {
        assert(UNIT == 1_000_000);
        let magnitude: u64 = capped_magnitude(bits, 1_000_000, 0x8000_0000_0000_0000);
        if negative {
            if magnitude == 0x8000_0000_0000_0000 {
                i64::MIN
            } else {
                -(magnitude as i64)
            }
        } else if magnitude > i64::MAX as u64 {
            i64::MAX
        } else {
            magnitude as i64
        }
    }
}

/// Reads a single-precision length, enlarged `zoom` times, as a count of
/// whole pixels.
pub fn pixels_from_bits(bits: u32, zoom: u16) -> (r: u32)
    ensures
        r == pixels(bits, zoom as int),
{
    let exponent: u32 = (bits / 0x80_0000) % 0x100;
    let fraction: u32 = bits % 0x80_0000;
    if bits >= 0x8000_0000 || (exponent == 0xff && fraction != 0) {
        0
    } else if exponent == 0xff {
        u32::MAX
    } else {
        capped_magnitude(bits, zoom as u32, u32::MAX as u64) as u32
    }
}

} // verus!

//! IEEE-754 single-precision numbers, held as their 32-bit patterns.
//!
//! A finite pattern stands for `±significand · 2^(exponent − 150)`. All
//! reasoning is done on [`magnitude`], the absolute value in units of
//! `2^-149`, which is a natural number for every finite pattern.

use vstd::prelude::*;
use vstd::arithmetic::div_mod::*;
use vstd::arithmetic::mul::*;
use vstd::arithmetic::power2::*;
use vstd::assert_by_contradiction;
use vstd::bits::*;

verus! {

/// Number of explicit fraction bits.
pub const FRACTION_BITS: u32 = 23;

/// Exponent field of infinities and NaNs.
pub const EXPONENT_SPECIAL: u32 = 255;

/// Weight of the implicit leading bit of a normal number.
pub const IMPLICIT_BIT: u32 = 0x80_0000;

/// The sign bit: set for negative numbers and for `-0.0`.
pub open spec fn sign_bit(bits: u32) -> bool {
    bits >= 0x8000_0000
}

/// The biased exponent field, 0 to 255.
pub open spec fn exponent_field(bits: u32) -> nat {
    ((bits / 0x80_0000) % 256) as nat
}

/// The 23 explicit fraction bits.
pub open spec fn fraction_field(bits: u32) -> nat {
    (bits % 0x80_0000) as nat
}

/// Neither an infinity nor a NaN.
pub open spec fn is_finite(bits: u32) -> bool {
    exponent_field(bits) != 255
}

/// The significand with the implicit bit that normal numbers carry.
pub open spec fn significand(bits: u32) -> nat {
    if exponent_field(bits) == 0 {
        fraction_field(bits)
    } else {
        0x80_0000 + fraction_field(bits)
    }
}

/// The power of two by which the significand is scaled up to reach
/// [`magnitude`]: subnormal numbers share the scale of the smallest normal
/// ones.
pub open spec fn magnitude_shift(bits: u32) -> nat {
    if exponent_field(bits) == 0 {
        0
    } else {
        (exponent_field(bits) - 1) as nat
    }
}

/// The absolute value of a finite pattern, in units of `2^-149`.
pub open spec fn magnitude(bits: u32) -> nat {
    significand(bits) * pow2(magnitude_shift(bits))
}

/// The biased exponent field of `bits`.
pub fn exponent(bits: u32) -> (e: u32)
    ensures
        e == exponent_field(bits),
        e <= 255,
{
    assert((bits >> 23u32) & 0xffu32 == (bits / 0x80_0000u32) % 256u32) by (bit_vector);
    (bits >> FRACTION_BITS) & 0xff
}

/// The explicit fraction bits of `bits`.
pub fn fraction(bits: u32) -> (f: u32)
    ensures
        f == fraction_field(bits),
        f < 0x80_0000,
{
    assert(bits & 0x7f_ffffu32 == bits % 0x80_0000u32) by (bit_vector);
    bits & 0x7f_ffff
}

/// Whether the sign bit of `bits` is set.
pub fn is_negative(bits: u32) -> (r: bool)
    ensures
        r == sign_bit(bits),
{
    bits >= 0x8000_0000
}

/// Whether `bits` is a finite number.
pub fn finite(bits: u32) -> (r: bool)
    ensures
        r == is_finite(bits),
{
    exponent(bits) != EXPONENT_SPECIAL
}

/// `a <= b` as numbers, for finite patterns; the two zeros are equal.
pub open spec fn number_le(a: u32, b: u32) -> bool {
    if sign_bit(a) {
        !sign_bit(b) || magnitude(b) <= magnitude(a)
    } else if sign_bit(b) {
        magnitude(a) == 0 && magnitude(b) == 0
    } else {
        magnitude(a) <= magnitude(b)
    }
}

/// `floor(|x| · 2^k)` for a finite pattern `x` and `k` up to 149.
pub open spec fn scaled_floor(bits: u32, k: nat) -> nat {
    magnitude(bits) / pow2((149 - k) as nat)
}

/// Dividing a shifted significand by a power of two either leaves a smaller
/// shift or divides the significand itself.
pub proof fn lemma_shift_then_divide(sig: nat, up: nat, down: nat)
    ensures
        (sig * pow2(up)) / pow2(down) == if up >= down {
            sig * pow2((up - down) as nat)
        } else {
            sig / pow2((down - up) as nat)
        },
{
    lemma_pow2_pos(up);
    lemma_pow2_pos(down);
    if up >= down {
        let rest = (up - down) as nat;
        lemma_pow2_adds(rest, down);
        lemma_mul_is_associative(sig as int, pow2(rest) as int, pow2(down) as int);
        lemma_div_by_multiple((sig * pow2(rest)) as int, pow2(down) as int);
    } else {
        let rest = (down - up) as nat;
        lemma_pow2_pos(rest);
        lemma_pow2_adds(up, rest);
        lemma_div_multiples_vanish_quotient(pow2(up) as int, sig as int, pow2(rest) as int);
        lemma_mul_is_commutative(sig as int, pow2(up) as int);
    }
}

/// A normal number lies between the power of two its exponent names and the
/// next one; a subnormal number lies below the smallest normal one.
pub proof fn lemma_magnitude_bounds(bits: u32)
    ensures
        exponent_field(bits) == 0 ==> magnitude(bits) < pow2(23),
        exponent_field(bits) >= 1 ==> pow2(exponent_field(bits) + 22) <= magnitude(bits) < pow2(
            exponent_field(bits) + 23,
        ),
{
    lemma2_to64();
    let e = exponent_field(bits);
    let sig = significand(bits);
    if e == 0 {
        assert(pow2(0) == 1);
        assert(magnitude(bits) == sig * 1);
    } else {
        let up = (e - 1) as nat;
        lemma_pow2_pos(up);
        lemma_pow2_adds(23, up);
        lemma_pow2_adds(24, up);
        assert(pow2(23) == 0x80_0000 && pow2(24) == 0x100_0000);
        lemma_mul_inequality(pow2(23) as int, sig as int, pow2(up) as int);
        lemma_mul_strict_inequality(sig as int, pow2(24) as int, pow2(up) as int);
    }
}

/// Patterns without their sign bit are ordered as the magnitudes they stand
/// for.
pub proof fn lemma_magnitude_order(a: u32, b: u32)
    ensures
        a % 0x8000_0000 < b % 0x8000_0000 ==> magnitude(a) < magnitude(b),
        a % 0x8000_0000 == b % 0x8000_0000 ==> magnitude(a) == magnitude(b),
        a % 0x8000_0000 <= b % 0x8000_0000 <==> magnitude(a) <= magnitude(b),
{
    lemma_magnitude_order_one_way(a, b);
    lemma_magnitude_order_one_way(b, a);
}

proof fn lemma_magnitude_order_one_way(a: u32, b: u32)
    ensures
        a % 0x8000_0000 < b % 0x8000_0000 ==> magnitude(a) < magnitude(b),
        a % 0x8000_0000 == b % 0x8000_0000 ==> magnitude(a) == magnitude(b),
{
    let ea = exponent_field(a);
    let eb = exponent_field(b);
    assert(a % 0x8000_0000u32 == ((a / 0x80_0000u32) % 256u32) * 0x80_0000u32 + a % 0x80_0000u32)
        by (bit_vector);
    assert(b % 0x8000_0000u32 == ((b / 0x80_0000u32) % 256u32) * 0x80_0000u32 + b % 0x80_0000u32)
        by (bit_vector);
    lemma_magnitude_bounds(a);
    lemma_magnitude_bounds(b);
    if a % 0x8000_0000 < b % 0x8000_0000 {
        if ea == eb {
            lemma_pow2_pos(magnitude_shift(a));
            lemma_mul_strict_inequality(
                significand(a) as int,
                significand(b) as int,
                pow2(magnitude_shift(a)) as int,
            );
        } else {
            assert(ea < eb);
            if ea == 0 {
                if eb > 1 {
                    lemma_pow2_strictly_increases(23, eb + 22);
                }
            } else {
                if ea + 23 < eb + 22 {
                    lemma_pow2_strictly_increases(ea + 23, eb + 22);
                }
            }
        }
    }
}

/// Whether the magnitude of `a` is at most that of `b`.
pub fn magnitude_le(a: u32, b: u32) -> (r: bool)
    ensures
        r == (magnitude(a) <= magnitude(b)),
{
    proof {
        lemma_magnitude_order(a, b);
        assert(a & 0x7fff_ffffu32 == a % 0x8000_0000u32) by (bit_vector);
        assert(b & 0x7fff_ffffu32 == b % 0x8000_0000u32) by (bit_vector);
    }
    (a & 0x7fff_ffff) <= (b & 0x7fff_ffff)
}

/// Whether `bits` is `+0.0` or `-0.0`.
pub fn is_zero(bits: u32) -> (r: bool)
    ensures
        r == (magnitude(bits) == 0),
{
    proof {
        lemma_magnitude_order(bits, 0);
        lemma_magnitude_order(0, bits);
        assert(bits & 0x7fff_ffffu32 == bits % 0x8000_0000u32) by (bit_vector);
        lemma2_to64();
        assert(magnitude(0) == 0) by {
            assert(significand(0) == 0);
            lemma_mul_basics(pow2(magnitude_shift(0)) as int);
        }
    }
    (bits & 0x7fff_ffff) == 0
}

/// The largest exponent field of a number below 256.
pub const EXPONENT_BELOW_256: u32 = 134;

/// The number as a fixed-point value with 32 fraction bits, rounded towards
/// zero and without its sign: `floor(|x| · 2^32)`. `None` for infinities,
/// NaNs and every number of magnitude 256 or more.
pub fn to_q32(bits: u32) -> (q: Option<u64>)
    ensures
        q is Some <==> is_finite(bits) && magnitude(bits) < pow2(157),
        q is Some ==> q->Some_0 == scaled_floor(bits, 32) && q->Some_0 < 0x100_0000_0000,
{
    let e = exponent(bits);
    proof {
        lemma_magnitude_bounds(bits);
        if e >= 135 && e + 22 > 157 {
            lemma_pow2_strictly_increases(157, (e + 22) as nat);
        }
        if 1 <= e <= 134 && e + 23 < 157 {
            lemma_pow2_strictly_increases((e + 23) as nat, 157);
        }
        if e == 0 {
            lemma_pow2_strictly_increases(23, 157);
        }
    }
    if e > EXPONENT_BELOW_256 {
        return None;
    }
    let f = fraction(bits);
    let sig: u64 = if e == 0 { f as u64 } else { (f + IMPLICIT_BIT) as u64 };
    let up: u64 = if e == 0 { 0 } else { (e - 1) as u64 };
    proof {
        lemma2_to64();
        lemma_shift_then_divide(sig as nat, up as nat, 117);
    }
    let q: u64 = if up >= 117 {
        let shift: u64 = up - 117;
        proof {
            if shift < 16 {
                lemma_pow2_strictly_increases(shift as nat, 16);
            }
            lemma_mul_inequality(pow2(shift as nat) as int, pow2(16) as int, sig as int);
            lemma_mul_is_commutative(pow2(shift as nat) as int, sig as int);
            lemma_mul_is_commutative(pow2(16) as int, sig as int);
            lemma_u64_shl_is_mul(sig, shift);
        }
        sig << shift
    } else {
        let shift: u64 = 117 - up;
        if shift < 64 {
            proof {
                lemma_u64_shr_is_div(sig, shift);
            }
            sig >> shift
        } else {
            proof {
                lemma_pow2_strictly_increases(24, shift as nat);
                lemma_basic_div(sig as int, pow2(shift as nat) as int);
            }
            0
        }
    };
    proof {
        // the quotient is below 2^40 because the magnitude is below 2^157
        lemma_pow2_adds(40, 117);
        lemma_pow2_adds(32, 8);
        lemma_pow2_pos(117);
        assert(pow2(40) == 0x100_0000_0000);
        assert_by_contradiction!(q < 0x100_0000_0000, {
            lemma_fundamental_div_mod(magnitude(bits) as int, pow2(117) as int);
            lemma_mul_inequality(pow2(40) as int, q as int, pow2(117) as int);
            lemma_mul_is_commutative(q as int, pow2(117) as int);
        });
    }
    Some(q)
}

} // verus!

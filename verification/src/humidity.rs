//! Humidity compensation: which inputs are accepted, and the sensor's 8.8
//! fixed-point form of an absolute humidity.
//!
//! Temperatures and humidities arrive as IEEE-754 single-precision bit
//! patterns (see [`crate::binary32`]), so that every rule here is exact.

use vstd::prelude::*;
use vstd::arithmetic::div_mod::*;
use vstd::arithmetic::mul::*;
use vstd::arithmetic::power2::*;
use crate::binary32::{
    exponent_field, finite, fraction_field, is_finite, is_negative, is_zero, magnitude,
    magnitude_le, number_le, scaled_floor, sign_bit, to_q32,
};
use crate::error::SensorError;

verus! {

/// The pattern of `100.0`.
pub const HUNDRED: u32 = 0x42c8_0000;

/// An absolute humidity in g/m³ as the sensor takes it: a whole part and a
/// fraction in 256ths, most significant bit first.
#[derive(Clone, Copy, Debug, PartialEq, Eq, Structural)]
pub struct HumidityEncoding {
    /// Whole grams per cubic metre.
    pub integer: u8,
    /// 256ths of a gram per cubic metre.
    pub fractional: u8,
}

impl HumidityEncoding {
    /// The encoded humidity in 256ths of a gram per cubic metre.
    pub open spec fn ticks(self) -> nat {
        (self.integer * 256 + self.fractional) as nat
    }

    /// Whether both bytes are zero, which the sensor reads as "no
    /// compensation".
    pub open spec fn is_zero(self) -> bool {
        self.integer == 0 && self.fractional == 0
    }
}

/// `bits` is a number from 0 to 100, both included.
pub open spec fn is_percentage(bits: u32) -> bool {
    &&& is_finite(bits)
    &&& if sign_bit(bits) {
        magnitude(bits) == 0
    } else {
        magnitude(bits) <= 100 * pow2(149)
    }
}

/// A temperature in °C and a relative humidity in percent that the
/// conversion accepts: both finite, the humidity within 0 to 100.
pub open spec fn valid_input(temp: u32, rel_humidity: u32) -> bool {
    is_finite(temp) && is_percentage(rel_humidity)
}

/// The truncated whole part of `bits` fits the sensor's byte: the number is
/// finite and lies strictly between -1 and 256.
pub open spec fn encodable(bits: u32) -> bool {
    &&& is_finite(bits)
    &&& if sign_bit(bits) {
        magnitude(bits) < pow2(149)
    } else {
        magnitude(bits) < 256 * pow2(149)
    }
}

/// The encoding of an encodable number: the number in 256ths, rounded
/// towards zero, split into its two bytes. Nothing below zero has bits to
/// emit.
pub open spec fn encoding_of(bits: u32) -> HumidityEncoding {
    if sign_bit(bits) {
        HumidityEncoding { integer: 0, fractional: 0 }
    } else {
        HumidityEncoding {
            integer: (scaled_floor(bits, 8) / 256) as u8,
            fractional: (scaled_floor(bits, 8) % 256) as u8,
        }
    }
}

/// Accepts a temperature and a relative humidity, or reports them as
/// malformed.
pub fn check_input(temp: u32, rel_humidity: u32) -> (r: Result<(), SensorError>)
    ensures
        valid_input(temp, rel_humidity) ==> r == Ok::<(), SensorError>(()),
        !valid_input(temp, rel_humidity) ==> r == Err::<(), SensorError>(
            SensorError::MalformedInput,
        ),
{
    if !finite(temp) || !finite(rel_humidity) {
        return Err(SensorError::MalformedInput);
    }
    let in_range = if is_negative(rel_humidity) {
        is_zero(rel_humidity)
    } else {
        proof {
            lemma_hundred();
        }
        magnitude_le(rel_humidity, HUNDRED)
    };
    if in_range {
        Ok(())
    } else {
        Err(SensorError::MalformedInput)
    }
}

/// Splits an absolute humidity into the sensor's two bytes.
///
/// The whole part is the number truncated; the fraction is built bit by bit,
/// most significant first: the residue is doubled, a one is emitted and
/// taken off whenever it reaches one, and the accumulator moves left after
/// every bit but the last. A number whose whole part does not fit a byte, an
/// infinity or a NaN is malformed.
pub fn separate_humidity_value(num: u32) -> (r: Result<HumidityEncoding, SensorError>)
    ensures
        encodable(num) ==> r == Ok::<HumidityEncoding, SensorError>(encoding_of(num)),
        !encodable(num) ==> r == Err::<HumidityEncoding, SensorError>(SensorError::MalformedInput),
{
    let q: u64 = match to_q32(num) {
        Some(q) => q,
        None => {
            proof {
                lemma_range_in_q32(num);
            }
            return Err(SensorError::MalformedInput);
        },
    };
    proof {
        lemma_range_in_q32(num);
    }
    if is_negative(num) {
        if q >= 0x1_0000_0000 {
            return Err(SensorError::MalformedInput);
        }
        return Ok(HumidityEncoding { integer: 0, fractional: 0 });
    }
    assert(q >> 32u64 == q / 0x1_0000_0000u64) by (bit_vector);
    assert(q & 0xffff_ffffu64 == q % 0x1_0000_0000u64) by (bit_vector);
    let integer: u8 = (q >> 32u64) as u8;
    let start: u64 = q & 0xffff_ffff;
    let mut residue: u64 = start;
    let mut fractional: u8 = 0;
    let mut digit: u32 = 0;
    let ghost mut emitted: int = 0;
    let ghost mut weight: int = 1;
    proof {
        lemma2_to64();
    }
    while digit < 8
        invariant
            digit <= 8,
            residue < 0x1_0000_0000,
            0 <= emitted < weight,
            weight == pow2(digit as nat),
            emitted * 0x1_0000_0000 + residue == start * weight,
            fractional == if digit == 8 { emitted } else { 2 * emitted },
        decreases 8 - digit,
    {
        proof {
            lemma2_to64();
            lemma_pow2_unfold((digit + 1) as nat);
            if digit < 7 {
                lemma_pow2_strictly_increases((digit + 1) as nat, 8);
            }
            assert(start * (2 * weight) == 2 * (start * weight)) by (nonlinear_arith);
        }
        residue = residue * 2;
        if residue >= 0x1_0000_0000 {
            assert(fractional | 1u8 == fractional + 1) by (bit_vector)
                requires
                    fractional % 2 == 0,
            ;
            fractional = fractional | 1;
            residue = residue - 0x1_0000_0000;
            proof {
                emitted = 2 * emitted + 1;
            }
        } else {
            proof {
                emitted = 2 * emitted;
            }
        }
        proof {
            weight = 2 * weight;
        }
        if digit < 7 {
            assert(fractional << 1u8 == 2 * fractional) by (bit_vector)
                requires
                    fractional < 128,
            ;
            fractional = fractional << 1u8;
        }
        digit = digit + 1;
    }
    proof {
        lemma2_to64();
        assert(weight == 256);
        let rest = start - emitted * 0x100_0000;
        assert(256 * rest == residue);
        assert(0 <= rest < 0x100_0000);
        assert(fractional == start / 0x100_0000);
    }
    Ok(HumidityEncoding { integer, fractional })
}

/// The humidity to compensate for, from what a client sent and the absolute
/// humidity computed from it: the encoding of `absolute` if the
/// temperature and the relative humidity are acceptable and the result can
/// be encoded, and a malformed input otherwise.
pub fn compensation(temp: u32, rel_humidity: u32, absolute: u32) -> (r: Result<
    HumidityEncoding,
    SensorError,
>)
    ensures
        valid_input(temp, rel_humidity) && encodable(absolute) ==> r == Ok::<
            HumidityEncoding,
            SensorError,
        >(encoding_of(absolute)),
        !(valid_input(temp, rel_humidity) && encodable(absolute)) ==> r == Err::<
            HumidityEncoding,
            SensorError,
        >(SensorError::MalformedInput),
{
    match check_input(temp, rel_humidity) {
        Ok(()) => separate_humidity_value(absolute),
        Err(error) => Err(error),
    }
}

/// The encoding is the number rounded down to the 256th: its whole part is
/// the number's whole part, and the number lies less than one 256th above
/// it.
pub proof fn lemma_encoding_rounds_down(bits: u32)
    requires
        encodable(bits),
        !sign_bit(bits),
    ensures
        encoding_of(bits).ticks() == scaled_floor(bits, 8),
        encoding_of(bits).integer == scaled_floor(bits, 0),
        encoding_of(bits).ticks() * pow2(141) <= magnitude(bits) < (encoding_of(bits).ticks() + 1)
            * pow2(141),
{
    lemma2_to64();
    lemma_pow2_pos(141);
    lemma_pow2_adds(16, 141);
    lemma_pow2_adds(8, 149);
    lemma_pow2_adds(141, 8);
    let m = magnitude(bits) as int;
    let unit = pow2(141) as int;
    let ticks = m / unit;
    lemma_fundamental_div_mod(m, unit);
    lemma_mod_bound(m, unit);
    assert(ticks < 0x1_0000 && m < (ticks + 1) * unit && ticks * unit <= m) by (nonlinear_arith)
        requires
            unit > 0,
            ticks == m / unit,
            m == unit * ticks + m % unit,
            0 <= m % unit < unit,
            m < 0x1_0000 * unit,
    ;
    lemma_div_denominator(m, unit, 256);
}

/// A larger humidity never encodes to a smaller pair: the encoding keeps
/// the order of the numbers it is given.
pub proof fn lemma_encoding_is_monotonic(a: u32, b: u32)
    requires
        encodable(a),
        encodable(b),
        number_le(a, b),
    ensures
        encoding_of(a).ticks() <= encoding_of(b).ticks(),
{
    if !sign_bit(a) {
        lemma_encoding_rounds_down(a);
        lemma_pow2_pos(141);
        if sign_bit(b) {
            lemma_div_basics(pow2(141) as int);
        } else {
            lemma_encoding_rounds_down(b);
            lemma_div_is_ordered(magnitude(a) as int, magnitude(b) as int, pow2(141) as int);
        }
    }
}

/// What the 32-bit fixed-point form of a number says about its range and
/// about its 256ths.
proof fn lemma_range_in_q32(bits: u32)
    ensures
        magnitude(bits) < 256 * pow2(149) <==> magnitude(bits) < pow2(157),
        magnitude(bits) < pow2(149) <==> scaled_floor(bits, 32) < 0x1_0000_0000,
        scaled_floor(bits, 8) == scaled_floor(bits, 32) / 0x100_0000,
{
    lemma2_to64();
    lemma_pow2_adds(8, 149);
    lemma_pow2_adds(32, 117);
    lemma_pow2_adds(117, 24);
    lemma_pow2_pos(117);
    let m = magnitude(bits) as int;
    let unit = pow2(117) as int;
    lemma_fundamental_div_mod(m, unit);
    lemma_mod_bound(m, unit);
    assert(m < 0x1_0000_0000 * unit <==> m / unit < 0x1_0000_0000) by (nonlinear_arith)
        requires
            unit > 0,
            m == unit * (m / unit) + m % unit,
            0 <= m % unit < unit,
    ;
    lemma_div_denominator(m, unit, pow2(24) as int);
}

/// The magnitude of the pattern [`HUNDRED`] is 100.
pub proof fn lemma_hundred()
    ensures
        magnitude(HUNDRED) == 100 * pow2(149),
        is_percentage(HUNDRED),
{
    lemma2_to64();
    assert(exponent_field(HUNDRED) == 133 && fraction_field(HUNDRED) == 0x48_0000);
    lemma_pow2_adds(17, 132);
    assert(pow2(17) == 0x2_0000);
    assert(0xc8_0000 * pow2(132) == 100 * (0x2_0000 * pow2(132))) by (nonlinear_arith);
}

} // verus!

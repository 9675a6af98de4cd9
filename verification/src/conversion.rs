//! From register contents to physical units and back, in exact integer
//! arithmetic.
//!
//! A temperature register counts fiftieths of a kelvin, so a temperature
//! is a whole number of thousandths of a degree on either scale. The
//! emissivity register counts 16384ths of one.

use vstd::prelude::*;
use crate::types::{Fraction, TempType};

verus! {

/// The content of the emissivity register that stands for one
pub const EMISSIVITY_ONE: u16 = 16384;

/// The temperature in thousandths of a degree Celsius: 0.02 K for each
/// count, less the 273.15 K between the two zero points.
pub open spec fn celsius_millis(raw: u16) -> int {
    raw * 20 - 273150
}

/// The temperature in thousandths of a degree Fahrenheit: nine fifths of
/// the Celsius value, and 32 degrees.
pub open spec fn fahrenheit_millis(raw: u16) -> int {
    celsius_millis(raw) * 9 / 5 + 32000
}

/// The temperature in thousandths of a degree of the scale asked for,
/// Celsius if none is.
pub open spec fn temperature_millis(raw: u16, temp_type: Option<TempType>) -> int {
    match temp_type {
        Some(TempType::Fahrenheit) => fahrenheit_millis(raw),
        _ => celsius_millis(raw),
    }
}

/// The emissivity that a register content stands for.
pub open spec fn emissivity_of(raw: u16) -> Fraction {
    Fraction { numerator: raw as i32, denominator: 16384 }
}

/// The register content for an emissivity: the 16384ths nearest to it,
/// a half rounded up.
pub open spec fn emissivity_raw(epsilon: Fraction) -> int {
    (epsilon.numerator * 32768 + epsilon.denominator) / (2 * epsilon.denominator)
}

/// The Fahrenheit value is nine fifths of the Celsius value and 32 degrees
/// with nothing lost: the division by five leaves no remainder.
pub proof fn lemma_fahrenheit_is_exact(raw: u16)
    ensures
        5 * (fahrenheit_millis(raw) - 32000) == 9 * celsius_millis(raw),
        fahrenheit_millis(raw) == raw * 36 - 459670,
{
}

/// Asking for no scale gives the Celsius value.
pub proof fn lemma_default_scale_is_celsius(raw: u16)
    ensures
        temperature_millis(raw, None) == temperature_millis(raw, Some(TempType::Celsius)),
        temperature_millis(raw, None) == celsius_millis(raw),
{
}

/// An emissivity between zero and one has a register content between zero
/// and `EMISSIVITY_ONE`, and no 16384th is nearer to it: the two differ by
/// at most half a count.
pub proof fn lemma_emissivity_raw_is_nearest(epsilon: Fraction)
    requires
        epsilon.in_unit_interval(),
    ensures
        0 <= emissivity_raw(epsilon) <= EMISSIVITY_ONE,
        -epsilon.denominator < 2 * epsilon.denominator * emissivity_raw(epsilon)
            - 32768 * epsilon.numerator <= epsilon.denominator,
{
    let n: int = epsilon.numerator as int;
    let d: int = epsilon.denominator as int;
    let x: int = n * 32768 + d;
    let q: int = x / (2 * d);
    assert(q == emissivity_raw(epsilon));
    assert(x == (2 * d) * q + x % (2 * d) && 0 <= x % (2 * d) < 2 * d) by (nonlinear_arith)
        requires
            d > 0,
            q == x / (2 * d),
    ;
    assert(0 <= q <= 16384) by (nonlinear_arith)
        requires
            d > 0,
            0 <= n <= d,
            x == n * 32768 + d,
            x == (2 * d) * q + x % (2 * d),
            0 <= x % (2 * d) < 2 * d,
    ;
    assert(2 * d * q == (2 * d) * q) by (nonlinear_arith);
}

/// Writing back the emissivity that was read changes nothing: the register
/// content of the emissivity that `raw` stands for is `raw`.
pub proof fn lemma_emissivity_round_trip(raw: u16)
    ensures
        emissivity_raw(emissivity_of(raw)) == raw,
        emissivity_of(raw).in_unit_interval() <==> raw <= EMISSIVITY_ONE,
{
    let epsilon = emissivity_of(raw);
    assert(2 * epsilon.denominator == 32768);
    assert(epsilon.numerator * 32768 + epsilon.denominator == raw * 32768 + 16384);
    assert((raw * 32768 + 16384) / 32768 == raw);
}

/// One encodes to `EMISSIVITY_ONE`, however it is written, and
/// `EMISSIVITY_ONE` is read as one.
pub proof fn lemma_emissivity_one(one: Fraction)
    requires
        one.denominator > 0,
        one.numerator == one.denominator,
    ensures
        emissivity_raw(one) == EMISSIVITY_ONE,
        emissivity_of(EMISSIVITY_ONE).same_value(one),
{
    let d: int = one.denominator as int;
    assert((d * 32768 + d) / (2 * d) == 16384) by (nonlinear_arith)
        requires
            d > 0,
    ;
    assert(16384 * d == d * 16384) by (nonlinear_arith);
}

/// Converts the content of a temperature register to thousandths of a
/// degree, Celsius unless Fahrenheit is asked for.
pub fn temperature(raw: u16, temp_type: Option<TempType>) -> (millis: i32)
    ensures
        millis == temperature_millis(raw, temp_type),
{
    let counts: i32 = raw as i32;
    match temp_type {
        Some(TempType::Fahrenheit) => counts * 36 - 459670,
        _ => counts * 20 - 273150,
    }
}

/// Converts the content of the emissivity register to a fraction of one.
pub fn emissivity_from_raw(raw: u16) -> (epsilon: Fraction)
    ensures
        epsilon == emissivity_of(raw),
{
    Fraction { numerator: raw as i32, denominator: 16384 }
}

/// Converts an emissivity to the content of the emissivity register, if it
/// lies between zero and one.
pub fn emissivity_to_raw(epsilon: Fraction) -> (raw: Option<u16>)
    ensures
        epsilon.in_unit_interval() ==> raw == Some(emissivity_raw(epsilon) as u16),
        epsilon.in_unit_interval() ==> emissivity_raw(epsilon) <= EMISSIVITY_ONE,
        !epsilon.in_unit_interval() ==> raw.is_none(),
{
    if epsilon.denominator == 0 || epsilon.numerator < 0 {
        return None;
    }
    let numerator: u64 = epsilon.numerator as u64;
    let denominator: u64 = epsilon.denominator as u64;
    if numerator > denominator {
        return None;
    }
    proof {
        lemma_emissivity_raw_is_nearest(epsilon);
    }
    let scaled: u64 = (numerator * 32768 + denominator) / (2 * denominator);
    Some(scaled as u16)
}

} // verus!

use crate::error::ConversionError;
use crate::parse::{literal_value, parse_i32, parses_as_i32};
use crate::units::Temperature;
use vstd::arithmetic::div_mod::{lemma_div_nonincreasing, lemma_div_pos_is_pos};
use vstd::prelude::*;

verus! {

/// Truncating division: the quotient of `a` by `b` with the fractional
/// remainder discarded toward zero.
pub open spec fn div_toward_zero(a: int, b: int) -> int
    recommends
        b > 0,
{
    if a >= 0 {
        a / b
    } else {
        -((-a) / b)
    }
}

/// The conversion table: the result of converting the value `v` from the
/// scale `from` to the scale `to`, with truncating division. Every pair
/// outside the six listed formulas — a unit converted to itself, or
/// `Unspecified` on either side — yields the defined default of 0.
pub open spec fn spec_convert_value(v: int, from: Temperature, to: Temperature) -> int {
    match (from, to) {
        (Temperature::Celsius, Temperature::Fahrenheit) => div_toward_zero(v * 9, 5) + 32,
        (Temperature::Celsius, Temperature::Kelvin) => v + 273,
        (Temperature::Fahrenheit, Temperature::Celsius) => div_toward_zero((v - 32) * 5, 9),
        (Temperature::Fahrenheit, Temperature::Kelvin) => div_toward_zero((v - 32) * 5, 9) + 273,
        (Temperature::Kelvin, Temperature::Celsius) => v - 273,
        (Temperature::Kelvin, Temperature::Fahrenheit) => 2 * (v - 273) + 32,
        _ => 0,
    }
}

/// Truncating division on machine integers.
fn div_trunc_i64(a: i64, b: i64) -> (q: i64)
    requires
        b > 0,
        a > i64::MIN,
    ensures
        q == div_toward_zero(a as int, b as int),
{
    if a >= 0 {
        let q = a as u64 / b as u64;
        proof {
            lemma_div_pos_is_pos(a as int, b as int);
            lemma_div_nonincreasing(a as int, b as int);
        }
        q as i64
    } else {
        let m = (-a) as u64 / b as u64;
        proof {
            lemma_div_pos_is_pos(-a as int, b as int);
            lemma_div_nonincreasing(-a as int, b as int);
        }
        -(m as i64)
    }
}

/// Applies the conversion table to an already-parsed value. Every `i32`
/// input is accepted; the result is computed in 64 bits, so no formula can
/// overflow.
pub fn convert_value(v: i32, from: Temperature, to: Temperature) -> (r: i64)
    ensures
        r == spec_convert_value(v as int, from, to),
{
    let w: i64 = v as i64;
    match (from, to) {
        (Temperature::Celsius, Temperature::Fahrenheit) => div_trunc_i64(w * 9, 5) + 32,
        (Temperature::Celsius, Temperature::Kelvin) => w + 273,
        (Temperature::Fahrenheit, Temperature::Celsius) => div_trunc_i64((w - 32) * 5, 9),
        (Temperature::Fahrenheit, Temperature::Kelvin) => div_trunc_i64((w - 32) * 5, 9) + 273,
        (Temperature::Kelvin, Temperature::Celsius) => w - 273,
        (Temperature::Kelvin, Temperature::Fahrenheit) => 2 * (w - 273) + 32,
        _ => 0,
    }
}

/// Everything `convert` promises of its result: success exactly on text
/// that parses as an `i32`, the table's value on success, and the one
/// recoverable error otherwise.
pub open spec fn convert_post(
    text: Seq<char>,
    from: Temperature,
    to: Temperature,
    r: Result<i64, ConversionError>,
) -> bool {
    &&& (r is Ok <==> parses_as_i32(text))
    &&& (r is Ok ==> r->Ok_0 == spec_convert_value(literal_value(text), from, to))
    &&& (r is Err ==> r->Err_0 == ConversionError::InvalidInputError)
}

/// Converts the temperature written in `text` from the scale `from` to the
/// scale `to`. The text must be a base-10 signed integer in `i32` range;
/// any other text gives `InvalidInputError` rather than a panic. Pairs
/// outside the conversion table succeed with 0.
pub fn convert(text: &str, from: Temperature, to: Temperature) -> (r: Result<
    i64,
    ConversionError,
>)
    ensures
        convert_post(text@, from, to, r),
{
    match parse_i32(text) {
        Ok(v) => Ok(convert_value(v, from, to)),
        Err(e) => Err(e),
    }
}

/// Conversion is pure: its contract admits one result per input, so two
/// calls of `convert` with identical arguments yield identical results.
pub proof fn lemma_convert_deterministic(
    text: Seq<char>,
    from: Temperature,
    to: Temperature,
    r1: Result<i64, ConversionError>,
    r2: Result<i64, ConversionError>,
)
    requires
        convert_post(text, from, to, r1),
        convert_post(text, from, to, r2),
    ensures
        r1 == r2,
{
    if parses_as_i32(text) {
        assert(r1 == Result::<i64, ConversionError>::Ok(r1->Ok_0));
        assert(r2 == Result::<i64, ConversionError>::Ok(r2->Ok_0));
    } else {
        assert(r1 == Result::<i64, ConversionError>::Err(r1->Err_0));
        assert(r2 == Result::<i64, ConversionError>::Err(r2->Err_0));
    }
}

} // verus!

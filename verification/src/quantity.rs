//! Trusted construction of typed quantities.
//!
//! The `measurements` crate stores each quantity as a floating-point value
//! in a fixed base unit and converts on construction.  Floating point stays
//! outside the verified library, so each unit's constructor is wrapped in a
//! small trusted function that parses the mantissa text and builds the
//! quantity.  Every wrapper promises one thing: the numeric conversion
//! succeeds exactly on the strings the documented floating-point grammar
//! ([`is_f64_literal`]) accepts.

use vstd::prelude::*;

use crate::numeric::is_f64_literal;

verus! {

#[verifier::external_type_specification]
#[verifier::external_body]
pub struct ExTemperature(measurements::Temperature);

#[verifier::external_type_specification]
#[verifier::external_body]
pub struct ExVolume(measurements::Volume);

#[verifier::external_type_specification]
#[verifier::external_body]
pub struct ExMass(measurements::Mass);

/// Relies on `str::parse::<f64>` (success exactly on the documented
/// floating-point grammar) and `measurements::Temperature::from_fahrenheit`.
#[verifier::external_body]
pub(crate) fn fahrenheit_from_str(m: &str) -> (r: Option<measurements::Temperature>)
    ensures
        r is Some <==> is_f64_literal(m@),
{
    match m.parse() {
        Ok(v) => Some(measurements::Temperature::from_fahrenheit(v)),
        Err(_) => None,
    }
}

/// Relies on `str::parse::<f64>` and `measurements::Temperature::from_celsius`.
#[verifier::external_body]
pub(crate) fn celsius_from_str(m: &str) -> (r: Option<measurements::Temperature>)
    ensures
        r is Some <==> is_f64_literal(m@),
{
    match m.parse() {
        Ok(v) => Some(measurements::Temperature::from_celsius(v)),
        Err(_) => None,
    }
}

/// Relies on `str::parse::<f64>` and `measurements::Temperature::from_kelvin`.
#[verifier::external_body]
pub(crate) fn kelvin_from_str(m: &str) -> (r: Option<measurements::Temperature>)
    ensures
        r is Some <==> is_f64_literal(m@),
{
    match m.parse() {
        Ok(v) => Some(measurements::Temperature::from_kelvin(v)),
        Err(_) => None,
    }
}

/// Relies on `str::parse::<f64>` and `measurements::Temperature::from_rankine`.
#[verifier::external_body]
pub(crate) fn rankine_from_str(m: &str) -> (r: Option<measurements::Temperature>)
    ensures
        r is Some <==> is_f64_literal(m@),
{
    match m.parse() {
        Ok(v) => Some(measurements::Temperature::from_rankine(v)),
        Err(_) => None,
    }
}

/// Relies on `str::parse::<f64>` and
/// `measurements::Volume::from_cubic_centimeters`.
#[verifier::external_body]
pub(crate) fn cubic_centimeters_from_str(m: &str) -> (r: Option<measurements::Volume>)
    ensures
        r is Some <==> is_f64_literal(m@),
{
    match m.parse() {
        Ok(v) => Some(measurements::Volume::from_cubic_centimeters(v)),
        Err(_) => None,
    }
}

/// Relies on `str::parse::<f64>` and `measurements::Volume::from_cubic_feet`.
#[verifier::external_body]
pub(crate) fn cubic_feet_from_str(m: &str) -> (r: Option<measurements::Volume>)
    ensures
        r is Some <==> is_f64_literal(m@),
{
    match m.parse() {
        Ok(v) => Some(measurements::Volume::from_cubic_feet(v)),
        Err(_) => None,
    }
}

/// Relies on `str::parse::<f64>` and `measurements::Volume::from_cubic_yards`.
#[verifier::external_body]
pub(crate) fn cubic_yards_from_str(m: &str) -> (r: Option<measurements::Volume>)
    ensures
        r is Some <==> is_f64_literal(m@),
{
    match m.parse() {
        Ok(v) => Some(measurements::Volume::from_cubic_yards(v)),
        Err(_) => None,
    }
}

/// Relies on `str::parse::<f64>` and `measurements::Volume::from_cubic_inches`.
#[verifier::external_body]
pub(crate) fn cubic_inches_from_str(m: &str) -> (r: Option<measurements::Volume>)
    ensures
        r is Some <==> is_f64_literal(m@),
{
    match m.parse() {
        Ok(v) => Some(measurements::Volume::from_cubic_inches(v)),
        Err(_) => None,
    }
}

/// Relies on `str::parse::<f64>` and `measurements::Volume::from_gallons`.
#[verifier::external_body]
pub(crate) fn gallons_from_str(m: &str) -> (r: Option<measurements::Volume>)
    ensures
        r is Some <==> is_f64_literal(m@),
{
    match m.parse() {
        Ok(v) => Some(measurements::Volume::from_gallons(v)),
        Err(_) => None,
    }
}

/// Relies on `str::parse::<f64>` and `measurements::Volume::from_cups`.
#[verifier::external_body]
pub(crate) fn cups_from_str(m: &str) -> (r: Option<measurements::Volume>)
    ensures
        r is Some <==> is_f64_literal(m@),
{
    match m.parse() {
        Ok(v) => Some(measurements::Volume::from_cups(v)),
        Err(_) => None,
    }
}

/// Relies on `str::parse::<f64>` and `measurements::Volume::from_teaspoons`.
#[verifier::external_body]
pub(crate) fn teaspoons_from_str(m: &str) -> (r: Option<measurements::Volume>)
    ensures
        r is Some <==> is_f64_literal(m@),
{
    match m.parse() {
        Ok(v) => Some(measurements::Volume::from_teaspoons(v)),
        Err(_) => None,
    }
}

/// Relies on `str::parse::<f64>` and `measurements::Volume::from_milliliters`.
#[verifier::external_body]
pub(crate) fn milliliters_from_str(m: &str) -> (r: Option<measurements::Volume>)
    ensures
        r is Some <==> is_f64_literal(m@),
{
    match m.parse() {
        Ok(v) => Some(measurements::Volume::from_milliliters(v)),
        Err(_) => None,
    }
}

/// Relies on `str::parse::<f64>` and `measurements::Volume::from_cubic_meters`.
#[verifier::external_body]
pub(crate) fn cubic_meters_from_str(m: &str) -> (r: Option<measurements::Volume>)
    ensures
        r is Some <==> is_f64_literal(m@),
{
    match m.parse() {
        Ok(v) => Some(measurements::Volume::from_cubic_meters(v)),
        Err(_) => None,
    }
}

/// Relies on `str::parse::<f64>` and `measurements::Volume::from_drops`.
#[verifier::external_body]
pub(crate) fn drops_from_str(m: &str) -> (r: Option<measurements::Volume>)
    ensures
        r is Some <==> is_f64_literal(m@),
{
    match m.parse() {
        Ok(v) => Some(measurements::Volume::from_drops(v)),
        Err(_) => None,
    }
}

/// Relies on `str::parse::<f64>` and `measurements::Volume::from_drams`.
#[verifier::external_body]
pub(crate) fn drams_from_str(m: &str) -> (r: Option<measurements::Volume>)
    ensures
        r is Some <==> is_f64_literal(m@),
{
    match m.parse() {
        Ok(v) => Some(measurements::Volume::from_drams(v)),
        Err(_) => None,
    }
}

/// Relies on `str::parse::<f64>` and `measurements::Volume::from_litres`.
#[verifier::external_body]
pub(crate) fn litres_from_str(m: &str) -> (r: Option<measurements::Volume>)
    ensures
        r is Some <==> is_f64_literal(m@),
{
    match m.parse() {
        Ok(v) => Some(measurements::Volume::from_litres(v)),
        Err(_) => None,
    }
}

/// Relies on `str::parse::<f64>` and `measurements::Volume::from_pints`.
#[verifier::external_body]
pub(crate) fn pints_from_str(m: &str) -> (r: Option<measurements::Volume>)
    ensures
        r is Some <==> is_f64_literal(m@),
{
    match m.parse() {
        Ok(v) => Some(measurements::Volume::from_pints(v)),
        Err(_) => None,
    }
}

/// Relies on `str::parse::<f64>` and `measurements::Mass::from_micrograms`.
#[verifier::external_body]
pub(crate) fn micrograms_from_str(m: &str) -> (r: Option<measurements::Mass>)
    ensures
        r is Some <==> is_f64_literal(m@),
{
    match m.parse() {
        Ok(v) => Some(measurements::Mass::from_micrograms(v)),
        Err(_) => None,
    }
}

/// Relies on `str::parse::<f64>` and `measurements::Mass::from_milligrams`.
#[verifier::external_body]
pub(crate) fn milligrams_from_str(m: &str) -> (r: Option<measurements::Mass>)
    ensures
        r is Some <==> is_f64_literal(m@),
{
    match m.parse() {
        Ok(v) => Some(measurements::Mass::from_milligrams(v)),
        Err(_) => None,
    }
}

/// Relies on `str::parse::<f64>` and `measurements::Mass::from_carats`.
#[verifier::external_body]
pub(crate) fn carats_from_str(m: &str) -> (r: Option<measurements::Mass>)
    ensures
        r is Some <==> is_f64_literal(m@),
{
    match m.parse() {
        Ok(v) => Some(measurements::Mass::from_carats(v)),
        Err(_) => None,
    }
}

/// Relies on `str::parse::<f64>` and `measurements::Mass::from_grams`.
#[verifier::external_body]
pub(crate) fn grams_from_str(m: &str) -> (r: Option<measurements::Mass>)
    ensures
        r is Some <==> is_f64_literal(m@),
{
    match m.parse() {
        Ok(v) => Some(measurements::Mass::from_grams(v)),
        Err(_) => None,
    }
}

/// Relies on `str::parse::<f64>` and `measurements::Mass::from_kilograms`.
#[verifier::external_body]
pub(crate) fn kilograms_from_str(m: &str) -> (r: Option<measurements::Mass>)
    ensures
        r is Some <==> is_f64_literal(m@),
{
    match m.parse() {
        Ok(v) => Some(measurements::Mass::from_kilograms(v)),
        Err(_) => None,
    }
}

/// Relies on `str::parse::<f64>` and `measurements::Mass::from_metric_tons`.
#[verifier::external_body]
pub(crate) fn metric_tons_from_str(m: &str) -> (r: Option<measurements::Mass>)
    ensures
        r is Some <==> is_f64_literal(m@),
{
    match m.parse() {
        Ok(v) => Some(measurements::Mass::from_metric_tons(v)),
        Err(_) => None,
    }
}

/// Relies on `str::parse::<f64>` and `measurements::Mass::from_grains`.
#[verifier::external_body]
pub(crate) fn grains_from_str(m: &str) -> (r: Option<measurements::Mass>)
    ensures
        r is Some <==> is_f64_literal(m@),
{
    match m.parse() {
        Ok(v) => Some(measurements::Mass::from_grains(v)),
        Err(_) => None,
    }
}

/// Relies on `str::parse::<f64>` and `measurements::Mass::from_pennyweights`.
#[verifier::external_body]
pub(crate) fn pennyweights_from_str(m: &str) -> (r: Option<measurements::Mass>)
    ensures
        r is Some <==> is_f64_literal(m@),
{
    match m.parse() {
        Ok(v) => Some(measurements::Mass::from_pennyweights(v)),
        Err(_) => None,
    }
}

/// Relies on `str::parse::<f64>` and `measurements::Mass::from_ounces`.
#[verifier::external_body]
pub(crate) fn ounces_from_str(m: &str) -> (r: Option<measurements::Mass>)
    ensures
        r is Some <==> is_f64_literal(m@),
{
    match m.parse() {
        Ok(v) => Some(measurements::Mass::from_ounces(v)),
        Err(_) => None,
    }
}

/// Relies on `str::parse::<f64>` and `measurements::Mass::from_stones`.
#[verifier::external_body]
pub(crate) fn stones_from_str(m: &str) -> (r: Option<measurements::Mass>)
    ensures
        r is Some <==> is_f64_literal(m@),
{
    match m.parse() {
        Ok(v) => Some(measurements::Mass::from_stones(v)),
        Err(_) => None,
    }
}

/// Relies on `str::parse::<f64>` and `measurements::Mass::from_pounds`.
#[verifier::external_body]
pub(crate) fn pounds_from_str(m: &str) -> (r: Option<measurements::Mass>)
    ensures
        r is Some <==> is_f64_literal(m@),
{
    match m.parse() {
        Ok(v) => Some(measurements::Mass::from_pounds(v)),
        Err(_) => None,
    }
}

} // verus!

use rustybeer_util::conversions::{MassBuilder, NumericParseError, TemperatureBuilder, VolumeBuilder};
use rustybeer_util::parse::{mass_dispatch, temperature_dispatch, volume_dispatch};
use rustybeer_util::units::{MassUnit, TemperatureUnit, VolumeUnit};

fn near(a: f64, b: f64) -> bool {
    (a - b).abs() < 1e-9
}

#[test]
fn volume_tokens_round_trip() {
    assert!(near(123.0, VolumeBuilder::new("123ft3").unwrap().as_cubic_feet()));
    assert!(near(123.0, VolumeBuilder::new("123 ft3").unwrap().as_cubic_feet()));
    assert!(near(123.0, VolumeBuilder::new("123yd3").unwrap().as_cubic_yards()));
    assert!(near(123.0, VolumeBuilder::new("123 yd3").unwrap().as_cubic_yards()));
    assert!(near(123.0, VolumeBuilder::new("123in3").unwrap().as_cubic_inches()));
    assert!(near(123.0, VolumeBuilder::new("123 in3").unwrap().as_cubic_inches()));
    assert!(near(123.0, VolumeBuilder::new("123gal").unwrap().as_gallons()));
    assert!(near(123.0, VolumeBuilder::new("123 gal").unwrap().as_gallons()));
    assert!(near(123.0, VolumeBuilder::new("123cup").unwrap().as_cups()));
    assert!(near(123.0, VolumeBuilder::new("123 cup").unwrap().as_cups()));
    assert!(near(123.0, VolumeBuilder::new("123tsp").unwrap().as_teaspoons()));
    assert!(near(123.0, VolumeBuilder::new("123 tsp").unwrap().as_teaspoons()));
    assert!(near(123.0, VolumeBuilder::new("123m3").unwrap().as_cubic_meters()));
    assert!(near(123.0, VolumeBuilder::new("123 m3").unwrap().as_cubic_meters()));
    assert!(near(123.0, VolumeBuilder::new("123\u{03bc}l").unwrap().as_drops()));
    assert!(near(123.0, VolumeBuilder::new("123 \u{03bc}l").unwrap().as_drops()));
    assert!(near(123.0, VolumeBuilder::new("123dr").unwrap().as_drams()));
    assert!(near(123.0, VolumeBuilder::new("123 dr").unwrap().as_drams()));
    assert!(near(123.0, VolumeBuilder::new("123l").unwrap().as_litres()));
    assert!(near(123.0, VolumeBuilder::new("123 l").unwrap().as_litres()));
    assert!(near(123.0, VolumeBuilder::new("123\u{0292}").unwrap().as_pints()));
    assert!(near(123.0, VolumeBuilder::new("123 \u{0292}").unwrap().as_pints()));
}

#[test]
fn mass_stones_round_trip() {
    assert!(near(123.0, MassBuilder::new("123st").unwrap().as_stones()));
    assert!(near(123.0, MassBuilder::new("123 st").unwrap().as_stones()));
}

#[test]
fn volume_tokens_are_case_insensitive() {
    assert!(near(123.0, VolumeBuilder::new("123ML").unwrap().as_milliliters()));
    assert!(near(123.0, VolumeBuilder::new("123GAL").unwrap().as_gallons()));
    assert!(near(123.0, VolumeBuilder::new("123L").unwrap().as_litres()));
    assert!(near(123.0, VolumeBuilder::new("123Dr").unwrap().as_drams()));
}

#[test]
fn mass_tokens_are_case_sensitive() {
    assert!(near(123.0, MassBuilder::new("123T").unwrap().as_tonnes()));
    assert_eq!(MassBuilder::new("123t").unwrap_err(), NumericParseError);
    assert_eq!(MassBuilder::new("123KG").unwrap_err(), NumericParseError);
    assert_eq!(MassBuilder::new("123G").unwrap_err(), NumericParseError);
}

#[test]
fn bare_decimal_uses_default_unit() {
    assert!(near(12.5, TemperatureBuilder::new("12.5").unwrap().as_celsius()));
    assert!(near(12.5, VolumeBuilder::new("12.5").unwrap().as_litres()));
    assert!(near(12.5, MassBuilder::new("12.5").unwrap().as_grams()));
    assert!(near(1000.0, TemperatureBuilder::new("1e3").unwrap().as_celsius()));
}

#[test]
fn unparsable_mantissa_is_an_error() {
    assert_eq!(TemperatureBuilder::new("abc").unwrap_err(), NumericParseError);
    assert_eq!(VolumeBuilder::new("abc").unwrap_err(), NumericParseError);
    assert_eq!(MassBuilder::new("abc").unwrap_err(), NumericParseError);
    assert_eq!(TemperatureBuilder::new("12..3").unwrap_err(), NumericParseError);
    assert_eq!(VolumeBuilder::new("12..3l").unwrap_err(), NumericParseError);
    assert_eq!(TemperatureBuilder::new("F").unwrap_err(), NumericParseError);
    assert_eq!(TemperatureBuilder::new(" F").unwrap_err(), NumericParseError);
    assert_eq!(TemperatureBuilder::new("123 x").unwrap_err(), NumericParseError);
    assert_eq!(VolumeBuilder::new("123xyz").unwrap_err(), NumericParseError);
}

#[test]
fn float_literal_edge_cases() {
    // Bare numbers run through the whole-string fallback, so these probe
    // the accepted floating-point grammar directly.
    assert!(near(5.0, TemperatureBuilder::new("5.").unwrap().as_celsius()));
    assert!(near(0.5, TemperatureBuilder::new(".5").unwrap().as_celsius()));
    assert!(near(5.0, TemperatureBuilder::new("+5").unwrap().as_celsius()));
    assert!(near(-5.0, TemperatureBuilder::new("-5").unwrap().as_celsius()));
    assert!(near(500.0, TemperatureBuilder::new("5e2").unwrap().as_celsius()));
    assert!(near(0.55, TemperatureBuilder::new("5.5e-1").unwrap().as_celsius()));
    // "inf" ends in the recognized token `f`, so the temperature parser
    // reads an empty mantissa and fails; the mass parser, whose table has
    // no `inf` entry, falls back to the whole string.
    assert_eq!(TemperatureBuilder::new("inf").unwrap_err(), NumericParseError);
    assert!(MassBuilder::new("inf").unwrap().as_grams().is_infinite());
    assert!(TemperatureBuilder::new("NaN").unwrap().as_celsius().is_nan());
    assert_eq!(TemperatureBuilder::new(".").unwrap_err(), NumericParseError);
    assert_eq!(TemperatureBuilder::new("e3").unwrap_err(), NumericParseError);
    assert_eq!(TemperatureBuilder::new("5e").unwrap_err(), NumericParseError);
    assert_eq!(TemperatureBuilder::new("+").unwrap_err(), NumericParseError);
}

#[test]
fn gallons_to_litres_scenario() {
    assert!((VolumeBuilder::new("5 gal").unwrap().as_litres() - 18.927).abs() < 1e-3);
}

#[test]
fn freezing_point_scenario() {
    assert!(near(32.0, TemperatureBuilder::new("0C").unwrap().as_fahrenheit()));
}

#[test]
fn kilograms_to_grams_scenario() {
    assert!(near(2500.0, MassBuilder::new("2.5kg").unwrap().as_grams()));
}

#[test]
fn dispatch_reports_unit_and_mantissa() {
    let (u, m) = temperature_dispatch("123F");
    assert_eq!(u, TemperatureUnit::Fahrenheit);
    assert_eq!(m, "123");
    let (u, m) = temperature_dispatch("");
    assert_eq!(u, TemperatureUnit::Celsius);
    assert_eq!(m, "0");
    let (u, m) = volume_dispatch("12.5 cm3");
    assert_eq!(u, VolumeUnit::CubicCentimeters);
    assert_eq!(m, "12.5");
    let (u, m) = mass_dispatch("7dwt");
    assert_eq!(u, MassUnit::Pennyweights);
    assert_eq!(m, "7");
}

#[test]
fn dispatch_picks_leftmost_trailing_match() {
    // The pattern is anchored at the end; the match with the earliest
    // start wins, and the mantissa is the run right before the token.
    let (u, m) = temperature_dispatch("12 34F");
    assert_eq!(u, TemperatureUnit::Fahrenheit);
    assert_eq!(m, "34");
    let (u, m) = volume_dispatch("1m3l");
    assert_eq!(u, VolumeUnit::Litres);
    assert_eq!(m, "3");
    let (u, m) = temperature_dispatch("-5C");
    assert_eq!(u, TemperatureUnit::Celsius);
    assert_eq!(m, "5");
}

#[test]
fn unknown_token_falls_back_to_whole_string() {
    let (u, m) = temperature_dispatch("123x");
    assert_eq!(u, TemperatureUnit::Celsius);
    assert_eq!(m, "123x");
    let (u, m) = mass_dispatch("123t");
    assert_eq!(u, MassUnit::Grams);
    assert_eq!(m, "123t");
}

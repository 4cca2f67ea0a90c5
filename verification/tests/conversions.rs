use rustybeer_util::conversions::{MassBuilder, TemperatureBuilder, VolumeBuilder};

fn close(a: f64, b: f64) -> bool {
    (a - b).abs() < 1e-9
}

#[test]
fn fahrenheit_from_string() {
    assert!(close(123.0, TemperatureBuilder::new("123F").unwrap().as_fahrenheit()));
    assert!(close(123.0, TemperatureBuilder::new("123 F").unwrap().as_fahrenheit()));
    assert!(close(123.0, TemperatureBuilder::new("123 f").unwrap().as_fahrenheit()));
}

#[test]
fn celsius_from_string() {
    assert!(close(123.0, TemperatureBuilder::new("123C").unwrap().as_celsius()));
    assert!(close(123.0, TemperatureBuilder::new("123 C").unwrap().as_celsius()));
    assert!(close(123.0, TemperatureBuilder::new("123 c").unwrap().as_celsius()));
}

#[test]
fn kelvin_from_string() {
    assert!(close(123.0, TemperatureBuilder::new("123K").unwrap().as_kelvin()));
    assert!(close(123.0, TemperatureBuilder::new("123 K").unwrap().as_kelvin()));
    assert!(close(123.0, TemperatureBuilder::new("123 k").unwrap().as_kelvin()));
}

#[test]
fn rankine_from_string() {
    assert!(close(123.0, TemperatureBuilder::new("123R").unwrap().as_rankine()));
    assert!(close(123.0, TemperatureBuilder::new("123 R").unwrap().as_rankine()));
    assert!(close(123.0, TemperatureBuilder::new("123 r").unwrap().as_rankine()));
}

#[test]
fn default_from_string() {
    assert!(close(123.0, TemperatureBuilder::new("123").unwrap().as_celsius()));
    assert!(close(123.0, VolumeBuilder::new("123").unwrap().as_litres()));
    assert!(close(123.0, MassBuilder::new("123").unwrap().as_grams()));
}

#[test]
fn zero_from_string() {
    assert!(close(0., TemperatureBuilder::new("").unwrap().as_celsius()));
    assert!(close(0., VolumeBuilder::new("").unwrap().as_litres()));
    assert!(close(0., MassBuilder::new("").unwrap().as_grams()));
}

#[test]
fn cubic_centimeters_from_string() {
    assert!(close(123.0, VolumeBuilder::new("123cm3").unwrap().as_cubic_centimeters()));
    assert!(close(123.0, VolumeBuilder::new("123 cm3").unwrap().as_cubic_centimeters()));
    assert!(close(123.0, VolumeBuilder::new("123 CM3").unwrap().as_cubic_centimeters()));
}

#[test]
fn milliliters_from_string() {
    assert!(close(123.0, VolumeBuilder::new("123ml").unwrap().as_milliliters()));
    assert!(close(123.0, VolumeBuilder::new("123 ml").unwrap().as_milliliters()));
    assert!(close(123.0, VolumeBuilder::new("123 ml").unwrap().as_milliliters()));
}

#[test]
fn pints_from_string() {
    assert!(close(123.0, VolumeBuilder::new("123p").unwrap().as_pints()));
    assert!(close(123.0, VolumeBuilder::new("123 p").unwrap().as_pints()));
    assert!(close(123.0, VolumeBuilder::new("123 P").unwrap().as_pints()));
}

#[test]
fn micrograms_from_string() {
    assert!(close(123.0, MassBuilder::new("123ug").unwrap().as_micrograms()));
    assert!(close(123.0, MassBuilder::new("123 ug").unwrap().as_micrograms()));
    assert!(close(123.0, MassBuilder::new("123\u{03bc}g").unwrap().as_micrograms()));
    assert!(close(123.0, MassBuilder::new("123 \u{03bc}g").unwrap().as_micrograms()));
}

#[test]
fn milligrams_from_string() {
    assert!(close(123.0, MassBuilder::new("123mg").unwrap().as_milligrams()));
    assert!(close(123.0, MassBuilder::new("123 mg").unwrap().as_milligrams()));
}

#[test]
fn carats_from_string() {
    assert!(close(123.0, MassBuilder::new("123ct").unwrap().as_carats()));
    assert!(close(123.0, MassBuilder::new("123 ct").unwrap().as_carats()));
}

#[test]
fn grams_from_string() {
    assert!(close(123.0, MassBuilder::new("123g").unwrap().as_grams()));
    assert!(close(123.0, MassBuilder::new("123 g").unwrap().as_grams()));
}

#[test]
fn kilograms_from_string() {
    assert!(close(123.0, MassBuilder::new("123kg").unwrap().as_kilograms()));
    assert!(close(123.0, MassBuilder::new("123 kg").unwrap().as_kilograms()));
}

#[test]
fn tonnes_from_string() {
    assert!(close(123.0, MassBuilder::new("123T").unwrap().as_tonnes()));
    assert!(close(123.0, MassBuilder::new("123 T").unwrap().as_tonnes()));
}

#[test]
fn grains_from_string() {
    assert!(close(123.0, MassBuilder::new("123gr").unwrap().as_grains()));
    assert!(close(123.0, MassBuilder::new("123 gr").unwrap().as_grains()));
}

#[test]
fn pennyweights_from_string() {
    assert!(close(123.0, MassBuilder::new("123dwt").unwrap().as_pennyweights()));
    assert!(close(123.0, MassBuilder::new("123 dwt").unwrap().as_pennyweights()));
}

#[test]
fn ounces_from_string() {
    assert!(close(123.0, MassBuilder::new("123oz").unwrap().as_ounces()));
    assert!(close(123.0, MassBuilder::new("123 oz").unwrap().as_ounces()));
}

#[test]
fn pounds_from_string() {
    assert!(close(123.0, MassBuilder::new("123lbs").unwrap().as_pounds()));
    assert!(close(123.0, MassBuilder::new("123 lbs").unwrap().as_pounds()));
}

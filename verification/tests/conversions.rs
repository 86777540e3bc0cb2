use meteo_tools::rational::Rat;
use meteo_tools::{
    celsius_to_fahrenheit, celsius_to_kelvin, fahrenheit_to_celsius, fahrenheit_to_kelvin,
    hpa_to_inhg, hpa_to_mmhg, inhg_to_hpa, kelvin_to_celsius, kelvin_to_fahrenheit,
    kmph_to_knots, kmph_to_mph, kmph_to_mps, knots_to_kmph, knots_to_mph, knots_to_mps,
    mmhg_to_hpa, mph_to_kmph, mph_to_knots, mph_to_mps, mps_to_kmph, mps_to_knots, mps_to_mph,
};

fn rat(num: i128, den: i128) -> Rat {
    Rat::new(num, den)
}

#[test]
fn celsius_to_fahrenheit_example() {
    let fahrenheit = celsius_to_fahrenheit(rat(225, 10));
    assert!(fahrenheit.eq_value(rat(725, 10)));
}

#[test]
fn fahrenheit_to_celsius_example() {
    let celsius = fahrenheit_to_celsius(rat(725, 10));
    assert!(celsius.eq_value(rat(225, 10)));
}

#[test]
fn celsius_to_kelvin_example() {
    let kelvin = celsius_to_kelvin(rat(225, 10));
    assert!(kelvin.eq_value(rat(29565, 100)));
}

#[test]
fn kelvin_to_celsius_example() {
    let celsius = kelvin_to_celsius(rat(29565, 100));
    assert!(celsius.eq_value(rat(225, 10)));
}

#[test]
fn fahrenheit_to_kelvin_example() {
    let kelvin = fahrenheit_to_kelvin(rat(725, 10));
    assert!(kelvin.eq_value(rat(29565, 100)));
}

#[test]
fn kelvin_to_fahrenheit_example() {
    let fahrenheit = kelvin_to_fahrenheit(rat(29565, 100));
    assert!(fahrenheit.eq_value(rat(725, 10)));
}

#[test]
fn fahrenheit_round_trip_restores_celsius() {
    let x = rat(-404, 7);
    let there_and_back = fahrenheit_to_celsius(celsius_to_fahrenheit(x));
    assert!(there_and_back.eq_value(x));
}

#[test]
fn celsius_round_trip_restores_fahrenheit() {
    let x = rat(98_600, 1_000);
    let there_and_back = celsius_to_fahrenheit(fahrenheit_to_celsius(x));
    assert!(there_and_back.eq_value(x));
}

#[test]
fn kelvin_round_trip_restores_celsius() {
    let x = rat(123_456, 100);
    let there_and_back = kelvin_to_celsius(celsius_to_kelvin(x));
    assert!(there_and_back.eq_value(x));
}

#[test]
fn celsius_round_trip_restores_kelvin() {
    let x = rat(1, 3);
    let there_and_back = celsius_to_kelvin(kelvin_to_celsius(x));
    assert!(there_and_back.eq_value(x));
}

#[test]
fn hpa_to_mmhg_example() {
    let mmhg = hpa_to_mmhg(rat(101325, 100));
    assert_eq!(mmhg, rat(7_600_003, 10_000));
}

#[test]
fn mmhg_to_hpa_example() {
    let hpa = mmhg_to_hpa(rat(7_600_003, 10_000));
    assert_eq!(hpa, rat(10_132_500, 10_000));
}

#[test]
fn hpa_to_inhg_example() {
    let inhg = hpa_to_inhg(rat(101325, 100));
    assert_eq!(inhg, rat(299_212, 10_000));
}

#[test]
fn inhg_to_hpa_example() {
    let hpa = inhg_to_hpa(rat(299_212, 10_000));
    assert_eq!(hpa, rat(10_132_485, 10_000));
}

#[test]
fn pressure_rounding_is_half_away_from_zero() {
    // 1 hPa is 0.750062 mmHg, which rounds up to 0.7501.
    assert_eq!(hpa_to_mmhg(rat(1, 1)), rat(7_501, 10_000));
    assert_eq!(hpa_to_mmhg(rat(-1, 1)), rat(-7_501, 10_000));
}

#[test]
fn mps_to_kmph_example() {
    let kmph = mps_to_kmph(rat(10, 1));
    assert_eq!(kmph, rat(360_000, 10_000));
}

#[test]
fn kmph_to_mps_example() {
    let mps = kmph_to_mps(rat(36, 1));
    assert_eq!(mps, rat(100_000, 10_000));
}

#[test]
fn kmph_to_mph_example() {
    let mph = kmph_to_mph(rat(36, 1));
    assert_eq!(mph, rat(223_694, 10_000));
}

#[test]
fn mph_to_kmph_example() {
    let kmph = mph_to_kmph(rat(223_694, 10_000));
    assert_eq!(kmph, rat(360_001, 10_000));
}

#[test]
fn mph_to_mps_example() {
    let mps = mph_to_mps(rat(10, 1));
    assert_eq!(mps, rat(44_704, 10_000));
}

#[test]
fn mps_to_mph_example() {
    let mph = mps_to_mph(rat(10, 1));
    assert_eq!(mph, rat(223_694, 10_000));
}

#[test]
fn mps_to_knots_example() {
    let knots = mps_to_knots(rat(10, 1));
    assert_eq!(knots, rat(194_384, 10_000));
}

#[test]
fn knots_to_mps_example() {
    let mps = knots_to_mps(rat(194_384, 10_000));
    assert_eq!(mps, rat(100_000, 10_000));
}

#[test]
fn kmph_to_knots_example() {
    let knots = kmph_to_knots(rat(10, 1));
    assert_eq!(knots, rat(53_996, 10_000));
}

#[test]
fn knots_to_kmph_example() {
    let kmph = knots_to_kmph(rat(53_996, 10_000));
    assert_eq!(kmph, rat(100_001, 10_000));
}

#[test]
fn knots_to_mph_example() {
    let mph = knots_to_mph(rat(194_385, 10_000));
    assert_eq!(mph, rat(223_694, 10_000));
}

#[test]
fn mph_to_knots_example() {
    let knots = mph_to_knots(rat(223_694, 10_000));
    assert_eq!(knots, rat(194_385, 10_000));
}

#[test]
fn speed_conversion_doubles_with_the_speed() {
    let once = mps_to_kmph(rat(10, 1));
    let twice = mps_to_kmph(rat(20, 1));
    assert_eq!(twice.den, once.den);
    assert_eq!(twice.num, 2 * once.num);
}

#[test]
fn speed_rounding_is_half_away_from_zero() {
    // 0.000125 m/s is 0.00045 km/h, which rounds up to 0.0005.
    assert_eq!(mps_to_kmph(rat(125, 1_000_000)), rat(5, 10_000));
    assert_eq!(mps_to_kmph(rat(-125, 1_000_000)), rat(-5, 10_000));
}

#[test]
fn speed_conversion_is_monotonic() {
    let slower = mps_to_kmph(rat(100_000, 10_000));
    let faster = mps_to_kmph(rat(100_001, 10_000));
    assert!(slower.num < faster.num);
    assert_eq!(slower.den, faster.den);
}

#[test]
fn rat_equality_is_by_value() {
    assert!(rat(1, 2).eq_value(rat(5, 10)));
    assert!(!rat(1, 2).eq_value(rat(5_001, 10_000)));
    assert!(Rat::from_int(36).eq_value(rat(360_000, 10_000)));
}

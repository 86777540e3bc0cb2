use meteo_tools::dew_point::{
    calculate_exact_pressure_offset, dew_point_gamma, pressure_correction_factor,
    saturation_vapor_pressure_exponent,
};
use meteo_tools::mixing_ratio::actual_vapor_pressure;
use meteo_tools::rational::Rat;
use meteo_tools::{
    celsius_absolute_humidity, celsius_dew_point, celsius_heat_index, celsius_humidex,
    celsius_mixing_ratio, common_celsius_dew_point, common_celsius_humidex,
    common_celsius_mixing_ratio, common_fahrenheit_dew_point, common_fahrenheit_humidex,
    common_fahrenheit_mixing_ratio, fahrenheit_absolute_humidity, fahrenheit_dew_point,
    fahrenheit_heat_index, fahrenheit_humidex, fahrenheit_mixing_ratio,
};

fn rat(num: i128, den: i128) -> Rat {
    Rat::new(num, den)
}

/// `ln(62.4 / 100)` to ten decimal places.
fn log_ratio_62_4() -> Rat {
    rat(-4_716_049_106, 10_000_000_000)
}

/// The Magnus-Tetens saturation vapor pressure at 22.5 degrees Celsius,
/// `6.112 * 10^(17.27 * 22.5 / 260.2)`, to five decimal places.
fn vapor_pressure_22_5() -> Rat {
    rat(19_035_042, 100_000)
}

fn standard_pressure() -> Rat {
    rat(101_325, 100)
}

#[test]
fn fahrenheit_heat_index_example() {
    let heat_index = fahrenheit_heat_index(rat(725, 10), rat(624, 10));
    assert_eq!(heat_index, rat(759_737, 10_000));
}

#[test]
fn celsius_heat_index_example() {
    let heat_index = celsius_heat_index(rat(225, 10), rat(624, 10));
    assert_eq!(heat_index, rat(244_298, 10_000));
}

#[test]
fn saturation_vapor_pressure_exponent_example() {
    let exponent = saturation_vapor_pressure_exponent(rat(225, 10));
    assert_eq!(exponent, rat(38_857_500, 26_020_000));
}

#[test]
fn dew_point_gamma_example() {
    let gamma = dew_point_gamma(rat(225, 10), log_ratio_62_4());
    assert_eq!(gamma, rat(10_217_655_736, 10_000_000_000));
}

#[test]
fn common_celsius_dew_point_example() {
    let dew_point = common_celsius_dew_point(rat(225, 10), log_ratio_62_4());
    assert_eq!(dew_point, rat(149_477, 10_000));
}

#[test]
fn celsius_dew_point_at_standard_pressure_is_uncorrected() {
    let dew_point = celsius_dew_point(rat(225, 10), log_ratio_62_4(), standard_pressure());
    assert_eq!(dew_point, rat(149_477, 10_000));
}

#[test]
fn celsius_dew_point_corrects_away_from_standard_pressure() {
    let dew_point = celsius_dew_point(rat(225, 10), log_ratio_62_4(), rat(1_000, 1));
    assert_eq!(dew_point, rat(149_106, 10_000));
}

#[test]
fn common_fahrenheit_dew_point_example() {
    let dew_point = common_fahrenheit_dew_point(rat(725, 10), log_ratio_62_4());
    assert_eq!(dew_point, rat(589_059, 10_000));
}

#[test]
fn fahrenheit_dew_point_example() {
    let dew_point = fahrenheit_dew_point(rat(725, 10), log_ratio_62_4(), standard_pressure());
    assert_eq!(dew_point, rat(589_059, 10_000));
}

#[test]
fn dew_point_at_full_saturation_is_the_temperature() {
    // At RH = 100% the logarithm is zero and the dew point equals the
    // temperature.
    let dew_point = common_celsius_dew_point(rat(225, 10), rat(0, 10_000_000_000));
    assert_eq!(dew_point, rat(225_000, 10_000));
}

#[test]
fn common_celsius_dew_point_below_freezing() {
    let dew_point = common_celsius_dew_point(rat(-100, 10), log_ratio_62_4());
    assert_eq!(dew_point, rat(-158_045, 10_000));
}

#[test]
fn pressure_correction_factor_is_one_at_standard_pressure() {
    let factor = pressure_correction_factor(standard_pressure());
    assert_eq!(factor.num, factor.den);
}

#[test]
fn pressure_correction_factor_example() {
    let factor = pressure_correction_factor(rat(1_000, 1));
    assert_eq!(factor, rat(10_157_712_630_000, 10_132_500_000_000));
}

#[test]
fn pressure_offset_no_op_at_standard_pressure() {
    let offset = calculate_exact_pressure_offset(standard_pressure(), rat(149_477, 10_000));
    assert_eq!(offset, rat(149_477, 10_000));
}

#[test]
fn pressure_offset_divides_by_the_factor() {
    let offset = calculate_exact_pressure_offset(rat(1_000, 1), rat(149_477, 10_000));
    assert_eq!(offset, rat(149_106, 10_000));
}

#[test]
fn common_celsius_humidex_example() {
    let humidex = common_celsius_humidex(rat(225, 10), log_ratio_62_4());
    assert_eq!(humidex, rat(252_487, 10_000));
}

#[test]
fn celsius_humidex_example() {
    let humidex = celsius_humidex(rat(225, 10), log_ratio_62_4(), standard_pressure());
    assert_eq!(humidex, rat(252_487, 10_000));
}

#[test]
fn common_fahrenheit_humidex_example() {
    let humidex = common_fahrenheit_humidex(rat(725, 10), log_ratio_62_4());
    assert_eq!(humidex, rat(996_699, 10_000));
}

#[test]
fn fahrenheit_humidex_example() {
    let humidex = fahrenheit_humidex(rat(725, 10), log_ratio_62_4(), standard_pressure());
    assert_eq!(humidex, rat(996_699, 10_000));
}

#[test]
fn actual_vapor_pressure_example() {
    let actual = actual_vapor_pressure(vapor_pressure_22_5(), rat(624, 10));
    assert_eq!(actual, rat(11_877_866_208, 100_000_000));
}

#[test]
fn common_celsius_mixing_ratio_example() {
    let ratio = common_celsius_mixing_ratio(vapor_pressure_22_5(), rat(624, 10));
    assert_eq!(ratio, rat(826, 10_000));
}

#[test]
fn celsius_mixing_ratio_example() {
    let ratio = celsius_mixing_ratio(vapor_pressure_22_5(), rat(624, 10), standard_pressure());
    assert_eq!(ratio, rat(826, 10_000));
}

#[test]
fn celsius_mixing_ratio_with_lower_pressure() {
    let ratio = celsius_mixing_ratio(vapor_pressure_22_5(), rat(624, 10), rat(1_000, 1));
    assert_eq!(ratio, rat(838, 10_000));
}

#[test]
fn common_fahrenheit_mixing_ratio_example() {
    let ratio = common_fahrenheit_mixing_ratio(vapor_pressure_22_5(), rat(624, 10));
    assert_eq!(ratio, rat(826, 10_000));
}

#[test]
fn fahrenheit_mixing_ratio_example() {
    let ratio = fahrenheit_mixing_ratio(vapor_pressure_22_5(), rat(624, 10), standard_pressure());
    assert_eq!(ratio, rat(826, 10_000));
}

#[test]
fn celsius_absolute_humidity_example() {
    let humidity = celsius_absolute_humidity(rat(225, 10), rat(624, 10), vapor_pressure_22_5());
    assert_eq!(humidity, rat(871, 10_000));
}

#[test]
fn fahrenheit_absolute_humidity_example() {
    let humidity = fahrenheit_absolute_humidity(
        rat(725, 10),
        rat(624, 10),
        vapor_pressure_22_5(),
    );
    assert_eq!(humidity, rat(871, 10_000));
}

#[test]
fn celsius_absolute_humidity_below_freezing() {
    // Saturation vapor pressure at -10 degrees Celsius, five decimals.
    let vapor_pressure = rat(106_593, 100_000);
    let humidity = celsius_absolute_humidity(rat(-100, 10), rat(624, 10), vapor_pressure);
    assert_eq!(humidity, rat(5, 10_000));
}

//! A crate for counting and converting meteorological units.
//!
//! Temperatures, pressures, humidities and wind speeds are exact rational
//! numbers (see [`rational::Rat`]), and every formula is a closed-form
//! rational transform whose result is pinned exactly by its contract.
//! Quantities that are not rational functions of the measurements — the
//! natural logarithm of the humidity ratio used by the dew point, and the
//! saturation vapor pressure used by the mixing ratio and the absolute
//! humidity — are taken as arguments, so a caller evaluates them at the
//! precision the contracts ask for and the rest of the computation is exact.

pub mod absolute_humidity;
pub mod dew_point;
pub mod heat_index;
pub mod humidex;
pub mod laws;
pub mod mixing_ratio;
pub mod pressure;
pub mod rational;
pub mod temperature;
pub mod wind_speed;

pub use self::absolute_humidity::celsius_absolute_humidity;
pub use self::absolute_humidity::fahrenheit_absolute_humidity;

pub use self::dew_point::celsius_dew_point;
pub use self::dew_point::common_celsius_dew_point;
pub use self::dew_point::common_fahrenheit_dew_point;
pub use self::dew_point::fahrenheit_dew_point;

pub use self::heat_index::celsius_heat_index;
pub use self::heat_index::fahrenheit_heat_index;

pub use self::humidex::celsius_humidex;
pub use self::humidex::common_celsius_humidex;
pub use self::humidex::common_fahrenheit_humidex;
pub use self::humidex::fahrenheit_humidex;

pub use self::mixing_ratio::celsius_mixing_ratio;
pub use self::mixing_ratio::common_celsius_mixing_ratio;
pub use self::mixing_ratio::common_fahrenheit_mixing_ratio;
pub use self::mixing_ratio::fahrenheit_mixing_ratio;

pub use self::pressure::hpa_to_inhg;
pub use self::pressure::hpa_to_mmhg;
pub use self::pressure::inhg_to_hpa;
pub use self::pressure::mmhg_to_hpa;

pub use self::wind_speed::kmph_to_knots;
pub use self::wind_speed::kmph_to_mph;
pub use self::wind_speed::kmph_to_mps;
pub use self::wind_speed::knots_to_kmph;
pub use self::wind_speed::knots_to_mph;
pub use self::wind_speed::knots_to_mps;
pub use self::wind_speed::mph_to_kmph;
pub use self::wind_speed::mph_to_knots;
pub use self::wind_speed::mph_to_mps;
pub use self::wind_speed::mps_to_kmph;
pub use self::wind_speed::mps_to_knots;
pub use self::wind_speed::mps_to_mph;

pub use self::temperature::celsius_to_fahrenheit;
pub use self::temperature::celsius_to_kelvin;
pub use self::temperature::fahrenheit_to_celsius;
pub use self::temperature::fahrenheit_to_kelvin;
pub use self::temperature::kelvin_to_celsius;
pub use self::temperature::kelvin_to_fahrenheit;

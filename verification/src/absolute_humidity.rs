//! Absolute humidity in g/m³: the actual vapor pressure converted from
//! hPa to Pa, divided by `R * (T + 273.15)` with the gas constant
//! `R = 8.314 J/(mol*K)`, and multiplied by the molar mass of water,
//! `M = 0.0180153 kg/mol`.
//!
//! As in [`crate::mixing_ratio`], the saturation vapor pressure is taken
//! as an argument; the temperature itself enters only through the Kelvin
//! denominator, exactly.

use vstd::prelude::*;

use crate::dew_point::{dew_point_temperature, dew_point_temperature_fahrenheit};
use crate::mixing_ratio::{actual_vapor_pressure, actual_vapor_pressure_frac, is_vapor_pressure};
use crate::rational::{
    frac, lemma_mul_abs_le, lemma_mul_pos_le, lemma_round_half_bound, round_to_scale, Frac, Rat,
    POW10_27, POW10_4,
};
use crate::temperature::fahrenheit_to_celsius_frac;

verus! {

/// `(svp * RH / 100 * 100) / (8.314 * (T + 273.15)) * 0.0180153`, rounded
/// to four decimals.
pub open spec fn celsius_absolute_humidity_frac(t: Frac, rh: Frac, v: Frac) -> Frac {
    actual_vapor_pressure_frac(v, rh).times(frac(100, 1)).over(
        frac(4157, 500).times(t.plus(frac(5463, 20))),
    ).times(frac(180153, 10000000)).round4()
}

/// Fahrenheit in: convert the temperature to Celsius, compute, and round
/// once more.
pub open spec fn fahrenheit_absolute_humidity_frac(t: Frac, rh: Frac, v: Frac) -> Frac {
    celsius_absolute_humidity_frac(fahrenheit_to_celsius_frac(t), rh, v).round4()
}

/// Calculates absolute humidity using Magnus-Tetens formula using Celsius.
/// Returns g/m³.
pub fn celsius_absolute_humidity(
    temperature: Rat,
    relative_humidity: Rat,
    vapor_pressure: Rat,
) -> (r: Rat)
    requires
        dew_point_temperature(temperature),
        relative_humidity.is_measurement(),
        is_vapor_pressure(vapor_pressure),
    ensures
        r.wf(),
        r@ == celsius_absolute_humidity_frac(
            temperature@,
            relative_humidity@,
            vapor_pressure@,
        ),
        r.den == POW10_4,
        -POW10_27 <= r.num <= POW10_27,
    {
    let actual: Rat = actual_vapor_pressure(vapor_pressure, relative_humidity);
    let pa_num: i128 = actual.num * 100;
    let pa_den: i128 = actual.den * 1;
    let b_num: i128 = temperature.num * 20 + 5463 * temperature.den;
    let b_den: i128 = temperature.den * 20;
    let den2_num: i128 = 4157 * b_num;
    let den2_den: i128 = 500 * b_den;
    proof {
        lemma_mul_abs_le(pa_num as int, 200_000_000_000_000_000, den2_den as int, 1_000_000_000);
        lemma_mul_pos_le(pa_den as int, 100_000_000_000, den2_num as int, 880_000_000_000_000);
        assert(pa_den as int * den2_num as int >= 100) by (nonlinear_arith)
            requires
                pa_den as int >= 100,
                den2_num as int >= 1,
        ;
    }
    let q_num: i128 = pa_num * den2_den;
    let q_den: i128 = pa_den * den2_num;
    let scaled: Rat = Rat { num: q_num * 180153, den: q_den * 10_000_000 };
    proof {
        lemma_round_half_bound(scaled@.num * (POW10_4 as int), scaled@.den, POW10_27 as int);
    }
    round_to_scale(scaled, POW10_4)
}

/// Calculates absolute humidity using Magnus-Tetens formula using
/// Fahrenheit.  Returns g/m³.
pub fn fahrenheit_absolute_humidity(
    temperature: Rat,
    relative_humidity: Rat,
    vapor_pressure: Rat,
) -> (r: Rat)
    requires
        dew_point_temperature_fahrenheit(temperature),
        relative_humidity.is_measurement(),
        is_vapor_pressure(vapor_pressure),
    ensures
        r.wf(),
        r@ == fahrenheit_absolute_humidity_frac(
            temperature@,
            relative_humidity@,
            vapor_pressure@,
        ),
        r.den == POW10_4,
        -POW10_27 <= r.num <= POW10_27,
    {
    let celsius: Rat = Rat {
        num: 5 * temperature.num - 160 * temperature.den,
        den: 9 * temperature.den,
    };
    let humidity: Rat = celsius_absolute_humidity(celsius, relative_humidity, vapor_pressure);
    proof {
        lemma_round_half_bound(humidity@.num * (POW10_4 as int), humidity@.den, POW10_27 as int);
    }
    round_to_scale(humidity, POW10_4)
}

} // verus!

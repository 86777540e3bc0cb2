//! Humidex: `T + (5/9) * (dew_point - 10)`, with the dew point taken from
//! the Magnus-Tetens formulas of [`crate::dew_point`] in the same
//! temperature unit, and the result rounded to four decimals.

use vstd::prelude::*;

use crate::dew_point::{
    celsius_dew_point, celsius_dew_point_frac, common_celsius_dew_point,
    common_celsius_dew_point_frac, common_fahrenheit_dew_point, common_fahrenheit_dew_point_frac,
    correctable_pressure, dew_point_temperature, dew_point_temperature_fahrenheit,
    fahrenheit_dew_point, fahrenheit_dew_point_frac, gamma_frac, is_log_ratio,
};
use crate::rational::{
    frac, lemma_mul_abs_le, lemma_round_half_bound, round_to_scale, Frac, Rat, POW10_18,
    POW10_28, POW10_4,
};
use crate::temperature::fahrenheit_to_celsius_frac;

verus! {

/// `t + (5/9) * (dp - 10)`, rounded to four decimals.
pub open spec fn humidex_value_frac(t: Frac, dp: Frac) -> Frac {
    t.plus(dp.minus(frac(10, 1)).times(frac(5, 9))).round4()
}

/// Humidex for Celsius at standard pressure.
pub open spec fn common_celsius_humidex_frac(t: Frac, l: Frac) -> Frac {
    humidex_value_frac(t, common_celsius_dew_point_frac(t, l))
}

/// Humidex for Celsius with pressure correction.
pub open spec fn celsius_humidex_frac(t: Frac, l: Frac, p: Frac) -> Frac {
    humidex_value_frac(t, celsius_dew_point_frac(t, l, p))
}

/// Humidex for Fahrenheit at standard pressure.
pub open spec fn common_fahrenheit_humidex_frac(t: Frac, l: Frac) -> Frac {
    humidex_value_frac(t, common_fahrenheit_dew_point_frac(t, l))
}

/// Humidex for Fahrenheit with pressure correction.
pub open spec fn fahrenheit_humidex_frac(t: Frac, l: Frac, p: Frac) -> Frac {
    humidex_value_frac(t, fahrenheit_dew_point_frac(t, l, p))
}

/// Counts humidex for Celsius from given values.  Uses common dew point
/// algorithm.
pub fn common_celsius_humidex(temperature: Rat, log_humidity_ratio: Rat) -> (r: Rat)
    requires
        dew_point_temperature(temperature),
        is_log_ratio(log_humidity_ratio),
        gamma_frac(temperature@, log_humidity_ratio@).num <= 172_600_000_000,
    ensures
        r.wf(),
        r@ == common_celsius_humidex_frac(temperature@, log_humidity_ratio@),
        r.den == POW10_4,
    {
    let dew_point: Rat = common_celsius_dew_point(temperature, log_humidity_ratio);
    let h_num: i128 = (dew_point.num - 100_000) * 5;
    proof {
        lemma_mul_abs_le(h_num as int, 5_100_000_000_000, temperature.den as int, 100_000);
    }
    let sum_num: i128 = temperature.num * 90_000 + h_num * temperature.den;
    let sum_den: i128 = temperature.den * 90_000;
    let sum: Rat = Rat { num: sum_num, den: sum_den };
    proof {
        lemma_round_half_bound(sum@.num * (POW10_4 as int), sum@.den, POW10_18 as int);
    }
    round_to_scale(sum, POW10_4)
}

/// Counts humidex for Celsius from given values, with the dew point
/// corrected for the given atmospheric pressure in hPa.
pub fn celsius_humidex(
    temperature: Rat,
    log_humidity_ratio: Rat,
    atmospheric_pressure: Rat,
) -> (r: Rat)
    requires
        dew_point_temperature(temperature),
        is_log_ratio(log_humidity_ratio),
        gamma_frac(temperature@, log_humidity_ratio@).num <= 172_600_000_000,
        correctable_pressure(atmospheric_pressure),
    ensures
        r.wf(),
        r@ == celsius_humidex_frac(
            temperature@,
            log_humidity_ratio@,
            atmospheric_pressure@,
        ),
        r.den == POW10_4,
    {
    let dew_point: Rat = celsius_dew_point(temperature, log_humidity_ratio, atmospheric_pressure);
    let h_num: i128 = (dew_point.num - 100_000) * 5;
    proof {
        lemma_mul_abs_le(
            h_num as int,
            51_000_000_000_000_000_000_000,
            temperature.den as int,
            100_000,
        );
    }
    let sum_num: i128 = temperature.num * 90_000 + h_num * temperature.den;
    let sum_den: i128 = temperature.den * 90_000;
    let sum: Rat = Rat { num: sum_num, den: sum_den };
    proof {
        lemma_round_half_bound(sum@.num * (POW10_4 as int), sum@.den, POW10_28 as int);
    }
    round_to_scale(sum, POW10_4)
}

/// Counts humidex for Fahrenheit from given values.  Uses common dew point
/// algorithm.
pub fn common_fahrenheit_humidex(temperature: Rat, log_humidity_ratio: Rat) -> (r: Rat)
    requires
        dew_point_temperature_fahrenheit(temperature),
        is_log_ratio(log_humidity_ratio),
        gamma_frac(fahrenheit_to_celsius_frac(temperature@), log_humidity_ratio@).num
            <= 172_600_000_000,
    ensures
        r.wf(),
        r@ == common_fahrenheit_humidex_frac(temperature@, log_humidity_ratio@),
        r.den == POW10_4,
    {
    let dew_point: Rat = common_fahrenheit_dew_point(temperature, log_humidity_ratio);
    let h_num: i128 = (dew_point.num - 100_000) * 5;
    proof {
        lemma_mul_abs_le(h_num as int, 510_000_000_000_000, temperature.den as int, 10_000);
    }
    let sum_num: i128 = temperature.num * 90_000 + h_num * temperature.den;
    let sum_den: i128 = temperature.den * 90_000;
    let sum: Rat = Rat { num: sum_num, den: sum_den };
    proof {
        lemma_round_half_bound(sum@.num * (POW10_4 as int), sum@.den, POW10_18 as int);
    }
    round_to_scale(sum, POW10_4)
}

/// Counts humidex for Fahrenheit from given values, with the dew point
/// corrected for the given atmospheric pressure in hPa.
pub fn fahrenheit_humidex(
    temperature: Rat,
    log_humidity_ratio: Rat,
    atmospheric_pressure: Rat,
) -> (r: Rat)
    requires
        dew_point_temperature_fahrenheit(temperature),
        is_log_ratio(log_humidity_ratio),
        gamma_frac(fahrenheit_to_celsius_frac(temperature@), log_humidity_ratio@).num
            <= 172_600_000_000,
        correctable_pressure(atmospheric_pressure),
    ensures
        r.wf(),
        r@ == fahrenheit_humidex_frac(
            temperature@,
            log_humidity_ratio@,
            atmospheric_pressure@,
        ),
        r.den == POW10_4,
    {
    let dew_point: Rat = fahrenheit_dew_point(
        temperature,
        log_humidity_ratio,
        atmospheric_pressure,
    );
    let h_num: i128 = (dew_point.num - 100_000) * 5;
    proof {
        lemma_mul_abs_le(
            h_num as int,
            51_000_000_000_000_000_000_000,
            temperature.den as int,
            10_000,
        );
    }
    let sum_num: i128 = temperature.num * 90_000 + h_num * temperature.den;
    let sum_den: i128 = temperature.den * 90_000;
    let sum: Rat = Rat { num: sum_num, den: sum_den };
    proof {
        lemma_round_half_bound(sum@.num * (POW10_4 as int), sum@.den, POW10_28 as int);
    }
    round_to_scale(sum, POW10_4)
}

} // verus!

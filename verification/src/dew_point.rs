//! Dew point from the Magnus-Tetens approximation.
//!
//! For temperature `T` in Celsius and relative humidity `RH` in percent,
//! `gamma = 17.27*T / (237.7 + T) + ln(RH / 100)` and
//! `dew_point = 237.7 * gamma / (17.27 - gamma)`, rounded to four decimals.
//!
//! The natural logarithm is not a rational function, so the crate pins this
//! evaluation convention: the Magnus term `17.27*T / (237.7 + T)` is rounded
//! to ten decimal places, and the caller supplies `ln(RH / 100)` as a
//! fraction over exactly `10^10` (ten decimal places as well).  From there
//! on every step is exact rational arithmetic.
//!
//! The pressure-corrected variant divides the rounded dew point by
//! `|1 - (P - 1013.25) / 1013.25 * 0.190284|` when the pressure `P` differs
//! from the standard 1013.25 hPa, and applies no correction when `P` equals
//! it exactly.

use vstd::prelude::*;

use crate::rational::{
    frac, lemma_mul_abs_le, lemma_mul_pos_le, lemma_round_half_bound, round_to_scale, Frac, Rat,
    POW10_10, POW10_12, POW10_14, POW10_18, POW10_22, POW10_4,
};

verus! {

/// Temperatures the dew point formulas accept: at most five fractional
/// decimal digits (a four-decimal Fahrenheit reading converted to Celsius
/// has denominator `9 * 10^4`), and a value between -200 and 100000 degrees
/// Celsius, so that the Magnus term stays between -100 and 100.
pub open spec fn dew_point_temperature(t: Rat) -> bool {
    &&& 0 < t.den <= 100_000
    &&& -200 * t.den <= t.num <= 100_000 * t.den
}

/// Fahrenheit temperatures whose Celsius conversion satisfies
/// [`dew_point_temperature`]: at most four decimal places and a value
/// between -328 and 180032 degrees Fahrenheit.
pub open spec fn dew_point_temperature_fahrenheit(t: Rat) -> bool {
    &&& 0 < t.den <= POW10_4
    &&& -328 * t.den <= t.num <= 180_032 * t.den
}

/// The caller-supplied `ln(RH / 100)`: a fraction over exactly `10^10`,
/// with a value between -1000 and 1000.
pub open spec fn is_log_ratio(l: Rat) -> bool {
    &&& l.den == POW10_10
    &&& -10_000_000_000_000 <= l.num <= 10_000_000_000_000
}

/// The Magnus term `17.27*T / (237.7 + T)`, exactly.
pub open spec fn magnus_term_frac(t: Frac) -> Frac {
    frac(1727, 100).times(t).over(frac(2377, 10).plus(t))
}

/// `gamma`: the Magnus term rounded to ten decimals, plus the supplied
/// logarithm, carried over the common denominator `10^10`.
pub open spec fn gamma_frac(t: Frac, l: Frac) -> Frac {
    frac(magnus_term_frac(t).round_to(POW10_10 as int).num + l.num, POW10_10 as int)
}

/// `237.7 * gamma / (17.27 - gamma)`, rounded to four decimals.
pub open spec fn dew_point_from_gamma_frac(g: Frac) -> Frac {
    frac(2377, 10).times(g).over(frac(1727, 100).minus(g)).round4()
}

/// Dew point in Celsius at standard pressure.
pub open spec fn common_celsius_dew_point_frac(t: Frac, l: Frac) -> Frac {
    dew_point_from_gamma_frac(gamma_frac(t, l))
}

/// `|1 - (P - 1013.25) / 1013.25 * 0.190284|`.
pub open spec fn pressure_correction_factor_frac(p: Frac) -> Frac {
    frac(1, 1).minus(
        p.minus(frac(101325, 100)).over(frac(101325, 100)).times(frac(190284, 1000000)),
    ).abs()
}

/// The corrected dew point: divided by the correction factor away from the
/// standard pressure, untouched at exactly 1013.25 hPa; four decimals
/// either way.
pub open spec fn pressure_offset_frac(p: Frac, dp: Frac) -> Frac {
    if !p.eqv(frac(101325, 100)) {
        dp.over(pressure_correction_factor_frac(p)).round4()
    } else {
        dp.round4()
    }
}

/// Dew point in Celsius with pressure correction.
pub open spec fn celsius_dew_point_frac(t: Frac, l: Frac, p: Frac) -> Frac {
    pressure_offset_frac(p, common_celsius_dew_point_frac(t, l))
}

/// Fahrenheit in: convert to Celsius, compute, convert back, round again.
pub open spec fn common_fahrenheit_dew_point_frac(t: Frac, l: Frac) -> Frac {
    crate::temperature::celsius_to_fahrenheit_frac(
        common_celsius_dew_point_frac(crate::temperature::fahrenheit_to_celsius_frac(t), l),
    ).round4()
}

/// Fahrenheit dew point with pressure correction.
pub open spec fn fahrenheit_dew_point_frac(t: Frac, l: Frac, p: Frac) -> Frac {
    pressure_offset_frac(p, common_fahrenheit_dew_point_frac(t, l))
}

/// A pressure is acceptable to the corrected variants when it either equals
/// the standard pressure exactly or leaves a correction factor of at least
/// one thousandth, so that the quotient stays within machine range.
pub open spec fn correctable_pressure(p: Rat) -> bool {
    &&& p.is_measurement()
    &&& (p@.eqv(frac(101325, 100)) || 1000 * pressure_correction_factor_frac(p@).num
        >= pressure_correction_factor_frac(p@).den)
}

/// The Magnus term stays between -100 and 100 on the accepted temperature
/// range.
proof fn lemma_magnus_term_small(tn: int, td: int)
    requires
        td > 0,
        -200 * td <= tn <= 100_000 * td,
    ensures
        -100 * ((100 * td) * (2377 * td + tn * 10)) <= (1727 * tn) * (10 * td),
        (1727 * tn) * (10 * td) <= 100 * ((100 * td) * (2377 * td + tn * 10)),
{
    if tn >= 0 {
        assert((1727 * tn) * (10 * td) <= 100 * ((100 * td) * (2377 * td + tn * 10))
            && -100 * ((100 * td) * (2377 * td + tn * 10)) <= (1727 * tn) * (10 * td))
            by (nonlinear_arith)
            requires
                td > 0,
                tn >= 0,
        ;
    } else {
        assert((1727 * tn) * (10 * td) <= 100 * ((100 * td) * (2377 * td + tn * 10))
            && -100 * ((100 * td) * (2377 * td + tn * 10)) <= (1727 * tn) * (10 * td))
            by (nonlinear_arith)
            requires
                td > 0,
                -200 * td <= tn < 0,
        ;
    }
}

/// The exponent of the Magnus-Tetens saturation-vapor-pressure formula,
/// `17.27*T / (237.7 + T)`, exactly.  The saturation vapor pressure itself
/// is `6.112 * 10^exponent`, which a caller evaluates outside the rational
/// model.
pub fn saturation_vapor_pressure_exponent(temperature: Rat) -> (r: Rat)
    requires
        dew_point_temperature(temperature),
    ensures
        r.wf(),
        r@ == magnus_term_frac(temperature@),
        -POW10_22 <= r.num <= POW10_22,
        0 < r.den <= POW10_22,
        -100 * r.den <= r.num <= 100 * r.den,
    {
    let a_num: i128 = 1727 * temperature.num;
    let b_num: i128 = 2377 * temperature.den + temperature.num * 10;
    proof {
        lemma_mul_abs_le(a_num as int, 20_000_000_000_000, 10 * (temperature.den as int), 1_000_000);
        lemma_mul_pos_le(100 * (temperature.den as int), 10_000_000, b_num as int, 1_100_000_000_000);
        lemma_magnus_term_small(temperature.num as int, temperature.den as int);
    }
    let q_num: i128 = a_num * (10 * temperature.den);
    let q_den: i128 = (100 * temperature.den) * b_num;
    Rat { num: q_num, den: q_den }
}

/// `gamma` for the supplied temperature and logarithm: the Magnus term
/// rounded to ten decimals plus the logarithm, over `10^10`.
pub fn dew_point_gamma(temperature: Rat, log_humidity_ratio: Rat) -> (r: Rat)
    requires
        dew_point_temperature(temperature),
        is_log_ratio(log_humidity_ratio),
    ensures
        r@ == gamma_frac(temperature@, log_humidity_ratio@),
        r.den == POW10_10,
        -20_000_000_000_000 <= r.num <= 20_000_000_000_000,
    {
    let term: Rat = saturation_vapor_pressure_exponent(temperature);
    proof {
        lemma_round_half_bound(
            term@.num * (POW10_10 as int),
            term@.den,
            1_000_000_000_000,
        );
    }
    let rounded: Rat = round_to_scale(term, POW10_10);
    Rat { num: rounded.num + log_humidity_ratio.num, den: POW10_10 }
}

/// Calculates dew point using Magnus-Tetens formula using Celsius with
/// common atmospheric pressure.  `log_humidity_ratio` is `ln(RH / 100)`
/// over exactly `10^10`.
pub fn common_celsius_dew_point(temperature: Rat, log_humidity_ratio: Rat) -> (r: Rat)
    requires
        dew_point_temperature(temperature),
        is_log_ratio(log_humidity_ratio),
        gamma_frac(temperature@, log_humidity_ratio@).num <= 172_600_000_000,
    ensures
        r.wf(),
        r@ == common_celsius_dew_point_frac(temperature@, log_humidity_ratio@),
        r.den == POW10_4,
        -POW10_12 <= r.num <= POW10_12,
    {
    let gamma: Rat = dew_point_gamma(temperature, log_humidity_ratio);
    let n1_num: i128 = 2377 * gamma.num;
    let d1_num: i128 = 17_270_000_000_000 - gamma.num * 100;
    let pre_num: i128 = n1_num * 1_000_000_000_000;
    let pre_den: i128 = 100_000_000_000 * d1_num;
    let pre: Rat = Rat { num: pre_num, den: pre_den };
    proof {
        lemma_round_half_bound(pre@.num * (POW10_4 as int), pre@.den, POW10_12 as int);
    }
    round_to_scale(pre, POW10_4)
}

/// The factor `|1 - (P - 1013.25) / 1013.25 * 0.190284|` by which the
/// pressure-corrected variants divide the dew point.
pub fn pressure_correction_factor(atmospheric_pressure: Rat) -> (r: Rat)
    requires
        atmospheric_pressure.is_measurement(),
    ensures
        r@ == pressure_correction_factor_frac(atmospheric_pressure@),
        r.num >= 0,
        r.num <= POW10_18,
        10_000_000_000_000 <= r.den <= POW10_18,
    {
    let c_num: i128 = atmospheric_pressure.num * 100 - 101325 * atmospheric_pressure.den;
    let c_den: i128 = atmospheric_pressure.den * 100;
    let e_num: i128 = (c_num * 100) * 190284;
    let e_den: i128 = (c_den * 101325) * 1000000;
    let f_num: i128 = e_den - e_num;
    let f_den: i128 = e_den;
    if f_num >= 0 {
        Rat { num: f_num, den: f_den }
    } else {
        Rat { num: -f_num, den: f_den }
    }
}

/// Applies the pressure correction to an already rounded dew point:
/// division by the correction factor away from standard pressure, none at
/// exactly 1013.25 hPa, and a four-decimal rounding either way.
pub fn calculate_exact_pressure_offset(atmospheric_pressure: Rat, dew_point: Rat) -> (r: Rat)
    requires
        correctable_pressure(atmospheric_pressure),
        dew_point.den == POW10_4,
        -POW10_14 <= dew_point.num <= POW10_14,
    ensures
        r.wf(),
        r@ == pressure_offset_frac(atmospheric_pressure@, dew_point@),
        r.den == POW10_4,
        -POW10_22 <= r.num <= POW10_22,
    {
    if atmospheric_pressure.num * 100 == 101325 * atmospheric_pressure.den {
        proof {
            lemma_round_half_bound(
                dew_point@.num * (POW10_4 as int),
                dew_point@.den,
                POW10_14 as int,
            );
        }
        round_to_scale(dew_point, POW10_4)
    } else {
        let factor: Rat = pressure_correction_factor(atmospheric_pressure);
        proof {
            lemma_mul_abs_le(dew_point.num as int, POW10_14 as int, factor.den as int, POW10_18 as int);
            lemma_mul_pos_le(dew_point.den as int, POW10_4 as int, factor.num as int, POW10_18 as int);
            assert((dew_point.den as int) * (factor.num as int) >= 100_000_000_000_000)
                by (nonlinear_arith)
                requires
                    dew_point.den as int == 10_000,
                    factor.num as int >= 10_000_000_000,
            ;
        }
        let q_num: i128 = dew_point.num * factor.den;
        let q_den: i128 = dew_point.den * factor.num;
        let quotient: Rat = Rat { num: q_num, den: q_den };
        proof {
            lemma_round_half_bound(quotient@.num * (POW10_4 as int), quotient@.den, POW10_22 as int);
        }
        round_to_scale(quotient, POW10_4)
    }
}

/// Calculates dew point using Magnus-Tetens formula using Celsius with
/// given atmospheric pressure correction in hPa.
pub fn celsius_dew_point(
    temperature: Rat,
    log_humidity_ratio: Rat,
    atmospheric_pressure: Rat,
) -> (r: Rat)
    requires
        dew_point_temperature(temperature),
        is_log_ratio(log_humidity_ratio),
        gamma_frac(temperature@, log_humidity_ratio@).num <= 172_600_000_000,
        correctable_pressure(atmospheric_pressure),
    ensures
        r.wf(),
        r@ == celsius_dew_point_frac(
            temperature@,
            log_humidity_ratio@,
            atmospheric_pressure@,
        ),
        r.den == POW10_4,
        -POW10_22 <= r.num <= POW10_22,
    {
    let dew_point: Rat = common_celsius_dew_point(temperature, log_humidity_ratio);
    calculate_exact_pressure_offset(atmospheric_pressure, dew_point)
}

/// Calculates common dew point using Magnus-Tetens formula using Fahrenheit
/// with common atmospheric pressure.
pub fn common_fahrenheit_dew_point(temperature: Rat, log_humidity_ratio: Rat) -> (r: Rat)
    requires
        dew_point_temperature_fahrenheit(temperature),
        is_log_ratio(log_humidity_ratio),
        gamma_frac(
            crate::temperature::fahrenheit_to_celsius_frac(temperature@),
            log_humidity_ratio@,
        ).num <= 172_600_000_000,
    ensures
        r.wf(),
        r@ == common_fahrenheit_dew_point_frac(temperature@, log_humidity_ratio@),
        r.den == POW10_4,
        -POW10_14 <= r.num <= POW10_14,
    {
    let celsius: Rat = Rat {
        num: 5 * temperature.num - 160 * temperature.den,
        den: 9 * temperature.den,
    };
    let dew_point: Rat = common_celsius_dew_point(celsius, log_humidity_ratio);
    let converted: Rat = Rat {
        num: 9 * dew_point.num + 160 * dew_point.den,
        den: 5 * dew_point.den,
    };
    proof {
        lemma_round_half_bound(converted@.num * (POW10_4 as int), converted@.den, POW10_14 as int);
    }
    round_to_scale(converted, POW10_4)
}

/// Calculates dew point using Magnus-Tetens formula using Fahrenheit with
/// given atmospheric pressure correction in hPa.
pub fn fahrenheit_dew_point(
    temperature: Rat,
    log_humidity_ratio: Rat,
    atmospheric_pressure: Rat,
) -> (r: Rat)
    requires
        dew_point_temperature_fahrenheit(temperature),
        is_log_ratio(log_humidity_ratio),
        gamma_frac(
            crate::temperature::fahrenheit_to_celsius_frac(temperature@),
            log_humidity_ratio@,
        ).num <= 172_600_000_000,
        correctable_pressure(atmospheric_pressure),
    ensures
        r.wf(),
        r@ == fahrenheit_dew_point_frac(
            temperature@,
            log_humidity_ratio@,
            atmospheric_pressure@,
        ),
        r.den == POW10_4,
        -POW10_22 <= r.num <= POW10_22,
    {
    let dew_point: Rat = common_fahrenheit_dew_point(temperature, log_humidity_ratio);
    calculate_exact_pressure_offset(atmospheric_pressure, dew_point)
}

} // verus!

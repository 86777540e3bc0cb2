//! Mixing ratio: `0.622 * e / (P - e)` in g/kg, where `e` is the actual
//! vapor pressure `svp * RH / 100`.
//!
//! The saturation vapor pressure `svp` (Magnus-Tetens,
//! `6.112 * 10^(17.27*T / (237.7 + T))`, in hPa) is not a rational function
//! of the temperature, so these functions take it as an argument: the
//! caller evaluates it — [`crate::dew_point::saturation_vapor_pressure_exponent`]
//! gives the exact exponent — and supplies it with at most five decimal
//! places.  The Fahrenheit variants differ only by one more four-decimal
//! rounding: the temperature-unit conversion happens before the saturation
//! vapor pressure is evaluated.

use vstd::prelude::*;

use crate::rational::{
    frac, lemma_mul_abs_le, lemma_mul_pos_le, lemma_round_half_bound, round_to_scale, Frac, Rat,
    POW10_33, POW10_4,
};

verus! {

/// A saturation vapor pressure the vapor formulas accept: nonnegative, at
/// most 2000 hPa, with at most five decimal places.
pub open spec fn is_vapor_pressure(v: Rat) -> bool {
    &&& 0 < v.den <= 100_000
    &&& 0 <= v.num <= 2_000 * v.den
}

/// The actual vapor pressure `svp * (RH / 100)`, exactly.
pub open spec fn actual_vapor_pressure_frac(v: Frac, rh: Frac) -> Frac {
    v.times(rh.over(frac(100, 1)))
}

/// `P - e`: the dry-air part of the pressure.
pub open spec fn mixing_denominator_frac(v: Frac, rh: Frac, p: Frac) -> Frac {
    p.minus(actual_vapor_pressure_frac(v, rh))
}

/// `0.622 * e / (P - e)`, rounded to four decimals.
pub open spec fn mixing_ratio_frac(v: Frac, rh: Frac, p: Frac) -> Frac {
    frac(622, 1000).times(
        actual_vapor_pressure_frac(v, rh).over(mixing_denominator_frac(v, rh, p)),
    ).round4()
}

/// Mixing ratio at the standard pressure of 1013.25 hPa.
pub open spec fn common_celsius_mixing_ratio_frac(v: Frac, rh: Frac) -> Frac {
    mixing_ratio_frac(v, rh, frac(101325, 100))
}

/// Standard pressure, then one more four-decimal rounding.
pub open spec fn common_fahrenheit_mixing_ratio_frac(v: Frac, rh: Frac) -> Frac {
    common_celsius_mixing_ratio_frac(v, rh).round4()
}

/// Given pressure, then one more four-decimal rounding.
pub open spec fn fahrenheit_mixing_ratio_frac(v: Frac, rh: Frac, p: Frac) -> Frac {
    mixing_ratio_frac(v, rh, p).round4()
}

/// The actual vapor pressure `svp * (RH / 100)`, exactly.
pub fn actual_vapor_pressure(vapor_pressure: Rat, relative_humidity: Rat) -> (r: Rat)
    requires
        is_vapor_pressure(vapor_pressure),
        relative_humidity.is_measurement(),
    ensures
        r.wf(),
        r@ == actual_vapor_pressure_frac(vapor_pressure@, relative_humidity@),
        -2_000_000_000_000_000 <= r.num <= 2_000_000_000_000_000,
        100 <= r.den <= 100_000_000_000,
    {
    proof {
        assert(vapor_pressure.den as int * (relative_humidity.den as int * 100) >= 100)
            by (nonlinear_arith)
            requires
                vapor_pressure.den as int >= 1,
                relative_humidity.den as int >= 1,
        ;
        lemma_mul_abs_le(
            vapor_pressure.num as int,
            200_000_000,
            relative_humidity.num as int,
            10_000_000,
        );
        lemma_mul_pos_le(
            vapor_pressure.den as int,
            100_000,
            relative_humidity.den as int * 100,
            1_000_000,
        );
    }
    Rat {
        num: vapor_pressure.num * relative_humidity.num,
        den: vapor_pressure.den * (relative_humidity.den * 100),
    }
}

/// Calculates mixing ratio using Magnus-Tetens formula using Celsius with
/// precise atm. pressure given.  Returns g/kg.
pub fn celsius_mixing_ratio(
    vapor_pressure: Rat,
    relative_humidity: Rat,
    atmospheric_pressure: Rat,
) -> (r: Rat)
    requires
        is_vapor_pressure(vapor_pressure),
        relative_humidity.is_measurement(),
        atmospheric_pressure.is_measurement(),
        mixing_denominator_frac(
            vapor_pressure@,
            relative_humidity@,
            atmospheric_pressure@,
        ).num != 0,
    ensures
        r.wf(),
        r@ == mixing_ratio_frac(vapor_pressure@, relative_humidity@, atmospheric_pressure@),
        r.den == POW10_4,
        -POW10_33 <= r.num <= POW10_33,
    {
    let actual: Rat = actual_vapor_pressure(vapor_pressure, relative_humidity);
    proof {
        lemma_mul_abs_le(
            atmospheric_pressure.num as int,
            10_000_000,
            actual.den as int,
            100_000_000_000,
        );
        lemma_mul_abs_le(
            actual.num as int,
            2_000_000_000_000_000,
            atmospheric_pressure.den as int,
            10_000,
        );
        lemma_mul_pos_le(
            atmospheric_pressure.den as int,
            10_000,
            actual.den as int,
            100_000_000_000,
        );
    }
    let d_num: i128 = atmospheric_pressure.num * actual.den
        - actual.num * atmospheric_pressure.den;
    let d_den: i128 = atmospheric_pressure.den * actual.den;
    proof {
        lemma_mul_abs_le(
            actual.num as int,
            2_000_000_000_000_000,
            d_den as int,
            1_000_000_000_000_000,
        );
        lemma_mul_abs_le(
            actual.den as int,
            100_000_000_000,
            d_num as int,
            30_000_000_000_000_000_000,
        );
    }
    let q_num: i128;
    let q_den: i128;
    if d_num >= 0 {
        q_num = actual.num * d_den;
        q_den = actual.den * d_num;
        proof {
            assert(actual.den as int * d_num as int >= 100) by (nonlinear_arith)
                requires
                    actual.den as int >= 100,
                    d_num as int >= 1,
            ;
        }
    } else {
        q_num = -(actual.num * d_den);
        q_den = -(actual.den * d_num);
        proof {
            assert(-(actual.den as int * d_num as int) >= 100) by (nonlinear_arith)
                requires
                    actual.den as int >= 100,
                    d_num as int <= -1,
            ;
        }
    }
    let m: Rat = Rat { num: 622 * q_num, den: 1000 * q_den };
    proof {
        lemma_round_half_bound(m@.num * (POW10_4 as int), m@.den, POW10_33 as int);
    }
    round_to_scale(m, POW10_4)
}

/// Calculates mixing ratio using Magnus-Tetens formula using Celsius with
/// common atmospheric pressure using constant.  Returns g/kg.
pub fn common_celsius_mixing_ratio(vapor_pressure: Rat, relative_humidity: Rat) -> (r: Rat)
    requires
        is_vapor_pressure(vapor_pressure),
        relative_humidity.is_measurement(),
        mixing_denominator_frac(
            vapor_pressure@,
            relative_humidity@,
            frac(101325, 100),
        ).num != 0,
    ensures
        r.wf(),
        r@ == common_celsius_mixing_ratio_frac(vapor_pressure@, relative_humidity@),
        r.den == POW10_4,
        -POW10_33 <= r.num <= POW10_33,
    {
    let standard: Rat = Rat { num: 101325, den: 100 };
    celsius_mixing_ratio(vapor_pressure, relative_humidity, standard)
}

/// Calculates mixing ratio for a Fahrenheit reading at standard pressure:
/// the temperature was converted before the saturation vapor pressure was
/// evaluated, and the result is rounded once more.  Returns g/kg.
pub fn common_fahrenheit_mixing_ratio(vapor_pressure: Rat, relative_humidity: Rat) -> (r: Rat)
    requires
        is_vapor_pressure(vapor_pressure),
        relative_humidity.is_measurement(),
        mixing_denominator_frac(
            vapor_pressure@,
            relative_humidity@,
            frac(101325, 100),
        ).num != 0,
    ensures
        r.wf(),
        r@ == common_fahrenheit_mixing_ratio_frac(vapor_pressure@, relative_humidity@),
        r.den == POW10_4,
        -POW10_33 <= r.num <= POW10_33,
    {
    let ratio: Rat = common_celsius_mixing_ratio(vapor_pressure, relative_humidity);
    proof {
        lemma_round_half_bound(ratio@.num * (POW10_4 as int), ratio@.den, POW10_33 as int);
    }
    round_to_scale(ratio, POW10_4)
}

/// Calculates mixing ratio for a Fahrenheit reading with precise atm.
/// pressure given.  Returns g/kg.
pub fn fahrenheit_mixing_ratio(
    vapor_pressure: Rat,
    relative_humidity: Rat,
    atmospheric_pressure: Rat,
) -> (r: Rat)
    requires
        is_vapor_pressure(vapor_pressure),
        relative_humidity.is_measurement(),
        atmospheric_pressure.is_measurement(),
        mixing_denominator_frac(
            vapor_pressure@,
            relative_humidity@,
            atmospheric_pressure@,
        ).num != 0,
    ensures
        r.wf(),
        r@ == fahrenheit_mixing_ratio_frac(
            vapor_pressure@,
            relative_humidity@,
            atmospheric_pressure@,
        ),
        r.den == POW10_4,
        -POW10_33 <= r.num <= POW10_33,
    {
    let ratio: Rat = celsius_mixing_ratio(
        vapor_pressure,
        relative_humidity,
        atmospheric_pressure,
    );
    proof {
        lemma_round_half_bound(ratio@.num * (POW10_4 as int), ratio@.den, POW10_33 as int);
    }
    round_to_scale(ratio, POW10_4)
}

} // verus!

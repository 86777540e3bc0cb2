//! Laws the conversion formulas obey, proved once and for all inputs.

use vstd::prelude::*;

use crate::dew_point::{celsius_dew_point_frac, common_celsius_dew_point_frac,
    common_fahrenheit_dew_point_frac, fahrenheit_dew_point_frac, pressure_offset_frac};
use crate::humidex::{celsius_humidex_frac, common_celsius_humidex_frac,
    common_fahrenheit_humidex_frac, fahrenheit_humidex_frac};
use crate::rational::{frac, lemma_round4_identity, lemma_round_half_characterization,
    lemma_round_half_exact, lemma_round_half_monotone, round_half_from_zero, Frac, POW10_4};
use crate::temperature::{celsius_to_fahrenheit_frac, celsius_to_kelvin_frac,
    fahrenheit_to_celsius_frac, kelvin_to_celsius_frac};
use crate::wind_speed::mps_to_kmph_frac;

verus! {

/// Converting Celsius to Fahrenheit and back returns the same temperature.
pub proof fn lemma_celsius_fahrenheit_round_trip(c: Frac)
    requires
        c.wf(),
    ensures
        fahrenheit_to_celsius_frac(celsius_to_fahrenheit_frac(c)).eqv(c),
{
    let r = fahrenheit_to_celsius_frac(celsius_to_fahrenheit_frac(c));
    assert(r.num == 45 * c.num);
    assert(r.den == 45 * c.den);
    assert((45 * c.num) * c.den == c.num * (45 * c.den)) by (nonlinear_arith);
}

/// Converting Fahrenheit to Celsius and back returns the same temperature.
pub proof fn lemma_fahrenheit_celsius_round_trip(f: Frac)
    requires
        f.wf(),
    ensures
        celsius_to_fahrenheit_frac(fahrenheit_to_celsius_frac(f)).eqv(f),
{
    let r = celsius_to_fahrenheit_frac(fahrenheit_to_celsius_frac(f));
    assert(r.num == 45 * f.num);
    assert(r.den == 45 * f.den);
    assert((45 * f.num) * f.den == f.num * (45 * f.den)) by (nonlinear_arith);
}

/// Converting Celsius to Kelvin and back returns the same temperature.
pub proof fn lemma_celsius_kelvin_round_trip(c: Frac)
    requires
        c.wf(),
    ensures
        kelvin_to_celsius_frac(celsius_to_kelvin_frac(c)).eqv(c),
{
    let r = kelvin_to_celsius_frac(celsius_to_kelvin_frac(c));
    assert(r.num == 400 * c.num);
    assert(r.den == 400 * c.den);
    assert((400 * c.num) * c.den == c.num * (400 * c.den)) by (nonlinear_arith);
}

/// Converting Kelvin to Celsius and back returns the same temperature.
pub proof fn lemma_kelvin_celsius_round_trip(k: Frac)
    requires
        k.wf(),
    ensures
        celsius_to_kelvin_frac(kelvin_to_celsius_frac(k)).eqv(k),
{
    let r = celsius_to_kelvin_frac(kelvin_to_celsius_frac(k));
    assert(r.num == 400 * k.num);
    assert(r.den == 400 * k.den);
    assert((400 * k.num) * k.den == k.num * (400 * k.den)) by (nonlinear_arith);
}

/// Before its final rounding, the m/s to km/h conversion is linear: scaling
/// the speed by any rational factor scales the result by the same factor.
pub proof fn lemma_speed_conversion_linear(k: Frac, x: Frac)
    ensures
        k.times(x).times(frac(36, 10)).eqv(k.times(x.times(frac(36, 10)))),
{
    assert(((k.num * x.num) * 36) * (k.den * (x.den * 10)) == (k.num * (x.num * 36)) * ((k.den
        * x.den) * 10)) by (nonlinear_arith);
}

/// Before its final rounding, the m/s to km/h conversion is monotonic.
pub proof fn lemma_speed_conversion_monotone(x: Frac, y: Frac)
    requires
        x.wf(),
        y.wf(),
        x.le(y),
    ensures
        x.times(frac(36, 10)).le(y.times(frac(36, 10))),
{
    assert((x.num * 36) * (y.den * 10) <= (y.num * 36) * (x.den * 10)) by (nonlinear_arith)
        requires
            x.num * y.den <= y.num * x.den,
    ;
}

/// The full m/s to km/h conversion, final rounding included, is monotonic:
/// a faster speed never converts below a slower one.
pub proof fn lemma_mps_to_kmph_monotone(x: Frac, y: Frac)
    requires
        x.wf(),
        y.wf(),
        x.le(y),
    ensures
        mps_to_kmph_frac(x).le(mps_to_kmph_frac(y)),
{
    lemma_speed_conversion_monotone(x, y);
    assert(((x.num * 36) * 10000) * (y.den * 10) <= ((y.num * 36) * 10000) * (x.den * 10))
        by (nonlinear_arith)
        requires
            (x.num * 36) * (y.den * 10) <= (y.num * 36) * (x.den * 10),
    ;
    lemma_round_half_monotone(
        (x.num * 36) * 10000,
        x.den * 10,
        (y.num * 36) * 10000,
        y.den * 10,
    );
}

/// On whole-number speeds the four-decimal rounding never fires: the
/// m/s to km/h conversion is exactly the factor 3.6.
pub proof fn lemma_mps_to_kmph_exact_on_integers(x: Frac)
    requires
        x.den == 1,
    ensures
        mps_to_kmph_frac(x).eqv(x.times(frac(36, 10))),
{
    assert((x.num * 36) * 10000 == (36000 * x.num) * 10);
    lemma_round_half_exact(36000 * x.num, 10);
}

/// On whole-number speeds the full, rounded m/s to km/h conversion is
/// linear under doubling (or any integer scaling).
pub proof fn lemma_mps_to_kmph_doubling(k: Frac, x: Frac)
    requires
        x.den == 1,
        k.den == 1,
    ensures
        mps_to_kmph_frac(k.times(x)) == k.times(mps_to_kmph_frac(x)),
{
    lemma_round_half_exact(36000 * (k.num * x.num), 10);
    lemma_round_half_exact(36000 * x.num, 10);
    assert(((k.num * x.num) * 36) * 10000 == (36000 * (k.num * x.num)) * 10)
        by (nonlinear_arith);
    assert((x.num * 36) * 10000 == (36000 * x.num) * 10) by (nonlinear_arith);
    assert(k.num * (36000 * x.num) == 36000 * (k.num * x.num)) by (nonlinear_arith);
}

/// The shared rounding convention moves a value by at most half of the
/// fourth decimal place, in either direction.
pub proof fn lemma_round4_close(x: Frac)
    requires
        x.wf(),
    ensures
        x.round4().minus(x).le(frac(1, 20000)),
        frac(-1, 20000).le(x.round4().minus(x)),
{
    lemma_round_half_characterization(x.num * 10000, x.den);
    let r = round_half_from_zero(x.num * 10000, x.den);
    assert((r * x.den - x.num * 10000) * 20000 <= 10000 * x.den) by (nonlinear_arith)
        requires
            2 * x.den * r <= 2 * (x.num * 10000) + x.den,
            x.den > 0,
    ;
    assert(-(10000 * x.den) <= (r * x.den - x.num * 10000) * 20000) by (nonlinear_arith)
        requires
            2 * (x.num * 10000) - x.den <= 2 * x.den * r,
            x.den > 0,
    ;
}

/// At exactly the standard pressure the correction leaves a four-decimal
/// dew point untouched.
pub proof fn lemma_pressure_correction_standard(dp: Frac)
    requires
        dp.den == POW10_4 as int,
    ensures
        pressure_offset_frac(frac(101325, 100), dp) == dp,
{
    lemma_round4_identity(dp);
}

/// The pressure-corrected Celsius dew point at exactly 1013.25 hPa equals
/// the uncorrected one, for every temperature and logarithm.
pub proof fn lemma_celsius_dew_point_standard_pressure(t: Frac, l: Frac)
    ensures
        celsius_dew_point_frac(t, l, frac(101325, 100)) == common_celsius_dew_point_frac(t, l),
{
    lemma_pressure_correction_standard(common_celsius_dew_point_frac(t, l));
}

/// The pressure-corrected Fahrenheit dew point at exactly 1013.25 hPa
/// equals the uncorrected one.
pub proof fn lemma_fahrenheit_dew_point_standard_pressure(t: Frac, l: Frac)
    ensures
        fahrenheit_dew_point_frac(t, l, frac(101325, 100)) == common_fahrenheit_dew_point_frac(
            t,
            l,
        ),
{
    lemma_pressure_correction_standard(common_fahrenheit_dew_point_frac(t, l));
}

/// The pressure-corrected Celsius humidex at exactly 1013.25 hPa equals the
/// uncorrected one.
pub proof fn lemma_celsius_humidex_standard_pressure(t: Frac, l: Frac)
    ensures
        celsius_humidex_frac(t, l, frac(101325, 100)) == common_celsius_humidex_frac(t, l),
{
    lemma_celsius_dew_point_standard_pressure(t, l);
}

/// The pressure-corrected Fahrenheit humidex at exactly 1013.25 hPa equals
/// the uncorrected one.
pub proof fn lemma_fahrenheit_humidex_standard_pressure(t: Frac, l: Frac)
    ensures
        fahrenheit_humidex_frac(t, l, frac(101325, 100)) == common_fahrenheit_humidex_frac(t, l),
{
    lemma_fahrenheit_dew_point_standard_pressure(t, l);
}

} // verus!

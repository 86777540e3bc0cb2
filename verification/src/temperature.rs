//! Temperature conversions between Celsius, Fahrenheit and Kelvin.
//!
//! These are exact linear maps; no rounding is applied.

use vstd::prelude::*;

use crate::rational::{frac, Frac, Rat, POW10_22, POW10_27, POW10_33};

verus! {

/// `c * 9/5 + 32`.
pub open spec fn celsius_to_fahrenheit_frac(c: Frac) -> Frac {
    c.times(frac(9, 5)).plus(frac(32, 1))
}

/// `(f - 32) * 5/9`.
pub open spec fn fahrenheit_to_celsius_frac(f: Frac) -> Frac {
    f.minus(frac(32, 1)).times(frac(5, 9))
}

/// `c + 273.15`.
pub open spec fn celsius_to_kelvin_frac(c: Frac) -> Frac {
    c.plus(frac(5463, 20))
}

/// `k - 273.15`.
pub open spec fn kelvin_to_celsius_frac(k: Frac) -> Frac {
    k.minus(frac(5463, 20))
}

/// Fahrenheit to Celsius, then into Kelvin.
pub open spec fn fahrenheit_to_kelvin_frac(f: Frac) -> Frac {
    fahrenheit_to_celsius_frac(f).plus(frac(5463, 20))
}

/// Kelvin to Celsius, then into Fahrenheit.
pub open spec fn kelvin_to_fahrenheit_frac(k: Frac) -> Frac {
    celsius_to_fahrenheit_frac(kelvin_to_celsius_frac(k))
}

/// Converts celsius to fahrenheit degrees.
pub fn celsius_to_fahrenheit(celsius: Rat) -> (r: Rat)
    requires
        celsius.wf(),
        celsius.bounded(POW10_27),
    ensures
        r.wf(),
        r@ == celsius_to_fahrenheit_frac(celsius@),
        r.bounded(POW10_33),
    {
    Rat { num: 9 * celsius.num + 160 * celsius.den, den: 5 * celsius.den }
}

/// Converts fahrenheit to celsius degrees.
pub fn fahrenheit_to_celsius(fahrenheit: Rat) -> (r: Rat)
    requires
        fahrenheit.wf(),
        fahrenheit.bounded(POW10_27),
    ensures
        r.wf(),
        r@ == fahrenheit_to_celsius_frac(fahrenheit@),
        r.bounded(POW10_33),
    {
    Rat { num: 5 * fahrenheit.num - 160 * fahrenheit.den, den: 9 * fahrenheit.den }
}

/// Converts Celsius to Kelvin.
pub fn celsius_to_kelvin(celsius: Rat) -> (r: Rat)
    requires
        celsius.wf(),
        celsius.bounded(POW10_27),
    ensures
        r.wf(),
        r@ == celsius_to_kelvin_frac(celsius@),
        r.bounded(POW10_33),
    {
    Rat { num: 20 * celsius.num + 5463 * celsius.den, den: 20 * celsius.den }
}

/// Converts Kelvin to Celsius.
pub fn kelvin_to_celsius(kelvin: Rat) -> (r: Rat)
    requires
        kelvin.wf(),
        kelvin.bounded(POW10_27),
    ensures
        r.wf(),
        r@ == kelvin_to_celsius_frac(kelvin@),
        r.bounded(POW10_33),
    {
    Rat { num: 20 * kelvin.num - 5463 * kelvin.den, den: 20 * kelvin.den }
}

/// Converts Fahrenheit to Kelvin.
pub fn fahrenheit_to_kelvin(fahrenheit: Rat) -> (r: Rat)
    requires
        fahrenheit.wf(),
        fahrenheit.bounded(POW10_22),
    ensures
        r.wf(),
        r@ == fahrenheit_to_kelvin_frac(fahrenheit@),
    {
    let celsius: Rat = fahrenheit_to_celsius(fahrenheit);
    Rat { num: 20 * celsius.num + 5463 * celsius.den, den: 20 * celsius.den }
}

/// Converts Kelvin to Fahrenheit.
pub fn kelvin_to_fahrenheit(kelvin: Rat) -> (r: Rat)
    requires
        kelvin.wf(),
        kelvin.bounded(POW10_22),
    ensures
        r.wf(),
        r@ == kelvin_to_fahrenheit_frac(kelvin@),
    {
    let celsius: Rat = kelvin_to_celsius(kelvin);
    celsius_to_fahrenheit(celsius)
}

} // verus!

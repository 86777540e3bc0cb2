//! Heat index from the Rothfusz regression.
//!
//! The regression is the nine-term polynomial
//! `HI = c0 + c1*T + c2*RH + c3*T*RH + c4*T^2 + c5*RH^2 + c6*T^2*RH
//!      + c7*T*RH^2 + c8*T^2*RH^2`
//! in Fahrenheit temperature `T` and relative humidity `RH`, with
//! `c0 = -42.379`, `c1 = 2.04901523`, `c2 = 10.14333127`, `c3 = -0.22475541`,
//! `c4 = -6.83783e-3`, `c5 = -5.481717e-2`, `c6 = 1.22874e-3`,
//! `c7 = 8.5282e-4`, `c8 = -1.99e-6`.
//! [`rothfusz_frac`] writes the polynomial as a single fraction: every
//! coefficient is scaled by `10^8` so that the common denominator is
//! `10^8 * Td^2 * Rd^2` for inputs `Tn/Td` and `Rn/Rd`.

use vstd::prelude::*;

use crate::rational::{
    frac, lemma_mul_abs_le, lemma_mul_pos_le, lemma_round_half_bound, round_to_scale, Frac, Rat,
    POW10_28, POW10_33, POW10_4,
};
use crate::temperature::{celsius_to_fahrenheit_frac, fahrenheit_to_celsius_frac};

verus! {

/// Inputs the Fahrenheit heat index accepts: up to `10^8` numerator counts
/// over a denominator of at most `5 * 10^4`, which covers both direct
/// four-decimal measurements and a measurement converted from Celsius.
pub open spec fn wide_measurement(t: Rat) -> bool {
    &&& 0 < t.den <= 50_000
    &&& -100_000_000 <= t.num <= 100_000_000
}

/// The Rothfusz polynomial as one exact fraction over the common
/// denominator `10^8 * Td^2 * Rd^2`.
pub open spec fn rothfusz_frac(t: Frac, r: Frac) -> Frac {
    frac(
        (-4237900000 * ((t.den * t.den) * (r.den * r.den)))
            + ((204901523 * (t.num * t.den)) * (r.den * r.den))
            + ((1014333127 * (t.den * t.den)) * (r.num * r.den))
            + ((-22475541 * (t.num * t.den)) * (r.num * r.den))
            + ((-683783 * (t.num * t.num)) * (r.den * r.den))
            + ((-5481717 * (t.den * t.den)) * (r.num * r.num))
            + ((122874 * (t.num * t.num)) * (r.num * r.den))
            + ((85282 * (t.num * t.den)) * (r.num * r.num))
            + ((-199 * (t.num * t.num)) * (r.num * r.num)),
        100000000 * ((t.den * t.den) * (r.den * r.den)),
    )
}

/// The regression value, rounded to four decimals.
pub open spec fn fahrenheit_heat_index_frac(t: Frac, r: Frac) -> Frac {
    rothfusz_frac(t, r).round4()
}

/// Celsius in: convert to Fahrenheit, apply the regression, convert back,
/// and round once more to four decimals.
pub open spec fn celsius_heat_index_frac(t: Frac, r: Frac) -> Frac {
    fahrenheit_to_celsius_frac(
        fahrenheit_heat_index_frac(celsius_to_fahrenheit_frac(t), r),
    ).round4()
}

/// Calculates heat index based on Rothfusz regression equation for
/// Fahrenheits.  Returns degrees of Fahrenheit.
#[verifier::rlimit(100)]
pub fn fahrenheit_heat_index(temperature: Rat, relative_humidity: Rat) -> (r: Rat)
    requires
        wide_measurement(temperature),
        relative_humidity.is_measurement(),
    ensures
        r.wf(),
        r@ == fahrenheit_heat_index_frac(temperature@, relative_humidity@),
        r.den == POW10_4,
        -POW10_33 <= r.num <= POW10_33,
        temperature.den >= 5 ==> -POW10_28 <= r.num <= POW10_28,
    {
    proof {
        lemma_mul_abs_le(temperature.num as int, 100_000_000, temperature.den as int, 50_000);
        lemma_mul_abs_le(temperature.num as int, 100_000_000, temperature.num as int, 100_000_000);
        lemma_mul_pos_le(temperature.den as int, 50_000, temperature.den as int, 50_000);
        lemma_mul_abs_le(relative_humidity.num as int, 10_000_000, relative_humidity.den as int, 10_000);
        lemma_mul_abs_le(relative_humidity.num as int, 10_000_000, relative_humidity.num as int, 10_000_000);
        lemma_mul_pos_le(relative_humidity.den as int, 10_000, relative_humidity.den as int, 10_000);
    }
    let tn_td: i128 = temperature.num * temperature.den;
    let tn2: i128 = temperature.num * temperature.num;
    let td2: i128 = temperature.den * temperature.den;
    let rn_rd: i128 = relative_humidity.num * relative_humidity.den;
    let rn2: i128 = relative_humidity.num * relative_humidity.num;
    let rd2: i128 = relative_humidity.den * relative_humidity.den;
    proof {
        lemma_mul_pos_le(td2 as int, 2_500_000_000, rd2 as int, 100_000_000);
        lemma_mul_abs_le(
            204901523 * (tn_td as int),
            1_100_000_000_000_000_000_000,
            rd2 as int,
            100_000_000,
        );
        lemma_mul_abs_le(
            1014333127 * (td2 as int),
            2_600_000_000_000_000_000,
            rn_rd as int,
            100_000_000_000,
        );
        lemma_mul_abs_le(
            -22475541 * (tn_td as int),
            120_000_000_000_000_000_000,
            rn_rd as int,
            100_000_000_000,
        );
        lemma_mul_abs_le(
            -683783 * (tn2 as int),
            7_000_000_000_000_000_000_000,
            rd2 as int,
            100_000_000,
        );
        lemma_mul_abs_le(
            -5481717 * (td2 as int),
            14_000_000_000_000_000,
            rn2 as int,
            100_000_000_000_000,
        );
        lemma_mul_abs_le(
            122874 * (tn2 as int),
            1_300_000_000_000_000_000_000,
            rn_rd as int,
            100_000_000_000,
        );
        lemma_mul_abs_le(
            85282 * (tn_td as int),
            430_000_000_000_000_000,
            rn2 as int,
            100_000_000_000_000,
        );
        lemma_mul_abs_le(
            -199 * (tn2 as int),
            2_000_000_000_000_000_000,
            rn2 as int,
            100_000_000_000_000,
        );
    }
    let d0: i128 = td2 * rd2;
    proof {
        assert(-5_000_000_000_000 <= tn_td <= 5_000_000_000_000);
        assert(0 < td2 <= 2_500_000_000);
        assert(0 < rd2 <= 100_000_000);
        assert(0 < d0 <= 250_000_000_000_000_000);
        assert(-4_237_900_000 * (d0 as int) >= -2_000_000_000_000_000_000_000_000_000);
        assert(-4_237_900_000 * (d0 as int) <= 0);
    }
    let term0: i128 = -4_237_900_000 * d0;
    let term1: i128 = (204_901_523 * tn_td) * rd2;
    let term2: i128 = (1_014_333_127 * td2) * rn_rd;
    let term3: i128 = (-22_475_541 * tn_td) * rn_rd;
    let term4: i128 = (-683_783 * tn2) * rd2;
    let term5: i128 = (-5_481_717 * td2) * rn2;
    let term6: i128 = (122_874 * tn2) * rn_rd;
    let term7: i128 = (85_282 * tn_td) * rn2;
    let term8: i128 = (-199 * tn2) * rn2;
    let numerator: i128 = term0 + term1 + term2 + term3 + term4 + term5 + term6 + term7 + term8;
    let denominator: i128 = 100_000_000 * d0;
    let regression: Rat = Rat { num: numerator, den: denominator };
    proof {
        lemma_round_half_bound(regression@.num * (POW10_4 as int), regression@.den, POW10_33 as int);
        if temperature.den >= 5 {
            assert(td2 >= 25) by (nonlinear_arith)
                requires
                    td2 == temperature.den * temperature.den,
                    temperature.den >= 5,
            ;
            assert(d0 >= 25) by (nonlinear_arith)
                requires
                    d0 == td2 * rd2,
                    td2 >= 25,
                    rd2 >= 1,
            ;
            lemma_round_half_bound(
                regression@.num * (POW10_4 as int),
                regression@.den,
                POW10_28 as int,
            );
        }
    }
    round_to_scale(regression, POW10_4)
}

/// Calculates heat index based on Rothfusz regression equation for Celsius.
pub fn celsius_heat_index(temperature: Rat, relative_humidity: Rat) -> (r: Rat)
    requires
        temperature.is_measurement(),
        relative_humidity.is_measurement(),
    ensures
        r.wf(),
        r@ == celsius_heat_index_frac(temperature@, relative_humidity@),
        r.den == POW10_4,
        -POW10_33 <= r.num <= POW10_33,
    {
    let fahrenheit_temperature: Rat = Rat {
        num: 9 * temperature.num + 160 * temperature.den,
        den: 5 * temperature.den,
    };
    let heat_index: Rat = fahrenheit_heat_index(fahrenheit_temperature, relative_humidity);
    let converted: Rat = Rat {
        num: 5 * heat_index.num - 160 * heat_index.den,
        den: 9 * heat_index.den,
    };
    proof {
        lemma_round_half_bound(converted@.num * (POW10_4 as int), converted@.den, POW10_33 as int);
    }
    round_to_scale(converted, POW10_4)
}

} // verus!

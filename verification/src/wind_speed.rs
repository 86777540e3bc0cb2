//! Wind speed conversions between m/s, km/h, mph and knots.
//!
//! km/h and m/s are related by the factor 3.6, mph and km/h by 0.621371,
//! mph and m/s by 0.44704, knots and km/h by 1.852, knots and mph by
//! 1.15078.  The composite conversions (m/s to mph and to knots) chain
//! through km/h, exactly as the formulas below spell out.  Every result is
//! rounded to four decimal places.

use vstd::prelude::*;

use crate::rational::{
    frac, lemma_round_half_bound, round_to_scale, Frac, Rat, POW10_22, POW10_27, POW10_33,
    POW10_4,
};

verus! {

/// `s * 3.6`, rounded to four decimals.
pub open spec fn mps_to_kmph_frac(s: Frac) -> Frac {
    s.times(frac(36, 10)).round4()
}

/// `s / 3.6`, rounded to four decimals.
pub open spec fn kmph_to_mps_frac(s: Frac) -> Frac {
    s.over(frac(36, 10)).round4()
}

/// `s * 0.621371`, rounded to four decimals.
pub open spec fn kmph_to_mph_frac(s: Frac) -> Frac {
    s.times(frac(621371, 1000000)).round4()
}

/// `s / 0.621371`, rounded to four decimals.
pub open spec fn mph_to_kmph_frac(s: Frac) -> Frac {
    s.over(frac(621371, 1000000)).round4()
}

/// `s * 0.44704`, rounded to four decimals.
pub open spec fn mph_to_mps_frac(s: Frac) -> Frac {
    s.times(frac(44704, 100000)).round4()
}

/// km/h, then mph, then one more four-decimal rounding.
pub open spec fn mps_to_mph_frac(s: Frac) -> Frac {
    kmph_to_mph_frac(mps_to_kmph_frac(s)).round4()
}

/// `s / 1.852`, rounded to four decimals.
pub open spec fn kmph_to_knots_frac(s: Frac) -> Frac {
    s.over(frac(1852, 1000)).round4()
}

/// `s * 1.852`, rounded to four decimals.
pub open spec fn knots_to_kmph_frac(s: Frac) -> Frac {
    s.times(frac(1852, 1000)).round4()
}

/// km/h, then knots.
pub open spec fn mps_to_knots_frac(s: Frac) -> Frac {
    kmph_to_knots_frac(mps_to_kmph_frac(s))
}

/// km/h, then m/s.
pub open spec fn knots_to_mps_frac(s: Frac) -> Frac {
    kmph_to_mps_frac(knots_to_kmph_frac(s))
}

/// `s * 1.15078`, rounded to four decimals.
pub open spec fn knots_to_mph_frac(s: Frac) -> Frac {
    s.times(frac(115078, 100000)).round4()
}

/// `s / 1.15078`, rounded to four decimals.
pub open spec fn mph_to_knots_frac(s: Frac) -> Frac {
    s.over(frac(115078, 100000)).round4()
}

/// Converts speed from Meters per second to Kilometers per hour.
pub fn mps_to_kmph(speed_mps: Rat) -> (r: Rat)
    requires
        speed_mps.wf(),
        speed_mps.bounded(POW10_27),
    ensures
        r.wf(),
        r@ == mps_to_kmph_frac(speed_mps@),
        r.den == POW10_4,
        -POW10_33 <= r.num <= POW10_33,
        speed_mps.bounded(POW10_22) ==> -POW10_27 <= r.num <= POW10_27,
    {
    let product: Rat = Rat { num: speed_mps.num * 36, den: speed_mps.den * 10 };
    proof {
        lemma_round_half_bound(product@.num * (POW10_4 as int), product@.den, POW10_33 as int);
        if speed_mps.bounded(POW10_22) {
            lemma_round_half_bound(
                product@.num * (POW10_4 as int),
                product@.den,
                POW10_27 as int,
            );
        }
    }
    round_to_scale(product, POW10_4)
}

/// Converts speed from Kilometers per hour to Meters per second.
pub fn kmph_to_mps(speed_kmph: Rat) -> (r: Rat)
    requires
        speed_kmph.wf(),
        speed_kmph.bounded(POW10_27),
    ensures
        r.wf(),
        r@ == kmph_to_mps_frac(speed_kmph@),
        r.den == POW10_4,
        -POW10_33 <= r.num <= POW10_33,
    {
    let quotient: Rat = Rat { num: speed_kmph.num * 10, den: speed_kmph.den * 36 };
    proof {
        lemma_round_half_bound(quotient@.num * (POW10_4 as int), quotient@.den, POW10_33 as int);
    }
    round_to_scale(quotient, POW10_4)
}

/// Converts speed from Kilometers per hour to Miles per hour.
pub fn kmph_to_mph(speed_kmph: Rat) -> (r: Rat)
    requires
        speed_kmph.wf(),
        speed_kmph.bounded(POW10_27),
    ensures
        r.wf(),
        r@ == kmph_to_mph_frac(speed_kmph@),
        r.den == POW10_4,
        -POW10_33 <= r.num <= POW10_33,
    {
    let product: Rat = Rat { num: speed_kmph.num * 621_371, den: speed_kmph.den * 1_000_000 };
    proof {
        lemma_round_half_bound(product@.num * (POW10_4 as int), product@.den, POW10_33 as int);
    }
    round_to_scale(product, POW10_4)
}

/// Converts speed from Miles per hour to Kilometers per hour.
pub fn mph_to_kmph(speed_mph: Rat) -> (r: Rat)
    requires
        speed_mph.wf(),
        speed_mph.bounded(POW10_27),
    ensures
        r.wf(),
        r@ == mph_to_kmph_frac(speed_mph@),
        r.den == POW10_4,
        -POW10_33 <= r.num <= POW10_33,
    {
    let quotient: Rat = Rat { num: speed_mph.num * 1_000_000, den: speed_mph.den * 621_371 };
    proof {
        lemma_round_half_bound(quotient@.num * (POW10_4 as int), quotient@.den, POW10_33 as int);
    }
    round_to_scale(quotient, POW10_4)
}

/// Converts speed from Miles per hour to Meters per second.
pub fn mph_to_mps(speed_mph: Rat) -> (r: Rat)
    requires
        speed_mph.wf(),
        speed_mph.bounded(POW10_27),
    ensures
        r.wf(),
        r@ == mph_to_mps_frac(speed_mph@),
        r.den == POW10_4,
        -POW10_33 <= r.num <= POW10_33,
    {
    let product: Rat = Rat { num: speed_mph.num * 44_704, den: speed_mph.den * 100_000 };
    proof {
        lemma_round_half_bound(product@.num * (POW10_4 as int), product@.den, POW10_33 as int);
    }
    round_to_scale(product, POW10_4)
}

/// Converts speed from Meters per second to Miles per hour.
pub fn mps_to_mph(speed_mps: Rat) -> (r: Rat)
    requires
        speed_mps.wf(),
        speed_mps.bounded(POW10_22),
    ensures
        r.wf(),
        r@ == mps_to_mph_frac(speed_mps@),
        r.den == POW10_4,
    {
    let kmph: Rat = mps_to_kmph(speed_mps);
    let mph: Rat = kmph_to_mph(kmph);
    round_to_scale(mph, POW10_4)
}

/// Converts speed from Kilometers per hour to knots.
pub fn kmph_to_knots(speed_kmph: Rat) -> (r: Rat)
    requires
        speed_kmph.wf(),
        speed_kmph.bounded(POW10_27),
    ensures
        r.wf(),
        r@ == kmph_to_knots_frac(speed_kmph@),
        r.den == POW10_4,
        -POW10_33 <= r.num <= POW10_33,
    {
    let quotient: Rat = Rat { num: speed_kmph.num * 1_000, den: speed_kmph.den * 1_852 };
    proof {
        lemma_round_half_bound(quotient@.num * (POW10_4 as int), quotient@.den, POW10_33 as int);
    }
    round_to_scale(quotient, POW10_4)
}

/// Converts speed from knots to Kilometers per hour.
pub fn knots_to_kmph(speed_knots: Rat) -> (r: Rat)
    requires
        speed_knots.wf(),
        speed_knots.bounded(POW10_27),
    ensures
        r.wf(),
        r@ == knots_to_kmph_frac(speed_knots@),
        r.den == POW10_4,
        -POW10_33 <= r.num <= POW10_33,
        speed_knots.bounded(POW10_22) ==> -POW10_27 <= r.num <= POW10_27,
    {
    let product: Rat = Rat { num: speed_knots.num * 1_852, den: speed_knots.den * 1_000 };
    proof {
        lemma_round_half_bound(product@.num * (POW10_4 as int), product@.den, POW10_33 as int);
        if speed_knots.bounded(POW10_22) {
            lemma_round_half_bound(
                product@.num * (POW10_4 as int),
                product@.den,
                POW10_27 as int,
            );
        }
    }
    round_to_scale(product, POW10_4)
}

/// Converts speed from Meters per second to knots.
pub fn mps_to_knots(speed_mps: Rat) -> (r: Rat)
    requires
        speed_mps.wf(),
        speed_mps.bounded(POW10_22),
    ensures
        r.wf(),
        r@ == mps_to_knots_frac(speed_mps@),
        r.den == POW10_4,
    {
    let kmph: Rat = mps_to_kmph(speed_mps);
    kmph_to_knots(kmph)
}

/// Converts speed from knots to Meters per second.
pub fn knots_to_mps(speed_knots: Rat) -> (r: Rat)
    requires
        speed_knots.wf(),
        speed_knots.bounded(POW10_22),
    ensures
        r.wf(),
        r@ == knots_to_mps_frac(speed_knots@),
        r.den == POW10_4,
    {
    let kmph: Rat = knots_to_kmph(speed_knots);
    kmph_to_mps(kmph)
}

/// Converts speed from knots to Miles per hour.
pub fn knots_to_mph(speed_knots: Rat) -> (r: Rat)
    requires
        speed_knots.wf(),
        speed_knots.bounded(POW10_27),
    ensures
        r.wf(),
        r@ == knots_to_mph_frac(speed_knots@),
        r.den == POW10_4,
        -POW10_33 <= r.num <= POW10_33,
    {
    let product: Rat = Rat { num: speed_knots.num * 115_078, den: speed_knots.den * 100_000 };
    proof {
        lemma_round_half_bound(product@.num * (POW10_4 as int), product@.den, POW10_33 as int);
    }
    round_to_scale(product, POW10_4)
}

/// Converts speed from Miles per hour to knots.
pub fn mph_to_knots(speed_mph: Rat) -> (r: Rat)
    requires
        speed_mph.wf(),
        speed_mph.bounded(POW10_27),
    ensures
        r.wf(),
        r@ == mph_to_knots_frac(speed_mph@),
        r.den == POW10_4,
        -POW10_33 <= r.num <= POW10_33,
    {
    let quotient: Rat = Rat { num: speed_mph.num * 100_000, den: speed_mph.den * 115_078 };
    proof {
        lemma_round_half_bound(quotient@.num * (POW10_4 as int), quotient@.den, POW10_33 as int);
    }
    round_to_scale(quotient, POW10_4)
}

} // verus!

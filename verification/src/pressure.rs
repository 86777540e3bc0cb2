//! Pressure conversions between hPa, mmHg and inHg.
//!
//! hPa and mmHg are related by the factor 0.750062, hPa and inHg by the
//! factor 33.8639; every result is rounded to four decimal places.

use vstd::prelude::*;

use crate::rational::{
    frac, lemma_round_half_bound, round_to_scale, Frac, Rat, POW10_27, POW10_33, POW10_4,
};

verus! {

/// `h * 0.750062`, rounded to four decimals.
pub open spec fn hpa_to_mmhg_frac(h: Frac) -> Frac {
    h.times(frac(750062, 1000000)).round4()
}

/// `m / 0.750062`, rounded to four decimals.
pub open spec fn mmhg_to_hpa_frac(m: Frac) -> Frac {
    m.over(frac(750062, 1000000)).round4()
}

/// `h / 33.8639`, rounded to four decimals.
pub open spec fn hpa_to_inhg_frac(h: Frac) -> Frac {
    h.over(frac(338639, 10000)).round4()
}

/// `i * 33.8639`, rounded to four decimals.
pub open spec fn inhg_to_hpa_frac(i: Frac) -> Frac {
    i.times(frac(338639, 10000)).round4()
}

/// Converts hPa to mmHg.
pub fn hpa_to_mmhg(hpa: Rat) -> (r: Rat)
    requires
        hpa.wf(),
        hpa.bounded(POW10_27),
    ensures
        r.wf(),
        r@ == hpa_to_mmhg_frac(hpa@),
        r.den == POW10_4,
        -POW10_33 <= r.num <= POW10_33,
    {
    let product: Rat = Rat { num: hpa.num * 750_062, den: hpa.den * 1_000_000 };
    proof {
        lemma_round_half_bound(
            product@.num * (POW10_4 as int),
            product@.den,
            POW10_33 as int,
        );
    }
    round_to_scale(product, POW10_4)
}

/// Converts mmHg to hPa.
pub fn mmhg_to_hpa(mmhg: Rat) -> (r: Rat)
    requires
        mmhg.wf(),
        mmhg.bounded(POW10_27),
    ensures
        r.wf(),
        r@ == mmhg_to_hpa_frac(mmhg@),
        r.den == POW10_4,
        -POW10_33 <= r.num <= POW10_33,
    {
    let quotient: Rat = Rat { num: mmhg.num * 1_000_000, den: mmhg.den * 750_062 };
    proof {
        lemma_round_half_bound(
            quotient@.num * (POW10_4 as int),
            quotient@.den,
            POW10_33 as int,
        );
    }
    round_to_scale(quotient, POW10_4)
}

/// Converts hPa to inHg.
pub fn hpa_to_inhg(hpa: Rat) -> (r: Rat)
    requires
        hpa.wf(),
        hpa.bounded(POW10_27),
    ensures
        r.wf(),
        r@ == hpa_to_inhg_frac(hpa@),
        r.den == POW10_4,
        -POW10_33 <= r.num <= POW10_33,
    {
    let quotient: Rat = Rat { num: hpa.num * 10_000, den: hpa.den * 338_639 };
    proof {
        lemma_round_half_bound(
            quotient@.num * (POW10_4 as int),
            quotient@.den,
            POW10_33 as int,
        );
    }
    round_to_scale(quotient, POW10_4)
}

/// Converts inHg to hPa.
pub fn inhg_to_hpa(inhg: Rat) -> (r: Rat)
    requires
        inhg.wf(),
        inhg.bounded(POW10_27),
    ensures
        r.wf(),
        r@ == inhg_to_hpa_frac(inhg@),
        r.den == POW10_4,
        -POW10_33 <= r.num <= POW10_33,
    {
    let product: Rat = Rat { num: inhg.num * 338_639, den: inhg.den * 10_000 };
    proof {
        lemma_round_half_bound(
            product@.num * (POW10_4 as int),
            product@.den,
            POW10_33 as int,
        );
    }
    round_to_scale(product, POW10_4)
}

} // verus!

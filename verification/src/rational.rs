//! Exact rational arithmetic for meteorological quantities.
//!
//! Every measurement handled by this crate (a temperature, a pressure, a
//! relative humidity, a wind speed) is a decimal number with a handful of
//! fractional digits.  Instead of floating point, which Verus cannot reason
//! about, the crate represents such a number exactly as a fraction of two
//! `i128` values.  All formulas are then closed-form rational functions of
//! their inputs, and every result is pinned exactly by its contract.
//!
//! The mathematical model of a `Rat` is a [`Frac`]: the same fraction over
//! unbounded integers.  Contracts are stated over `Frac` values, compared
//! with [`Frac::eqv`] (equality of the represented rational numbers).

use vstd::prelude::*;

verus! {

/// `10^4`: the scale of the four-decimal rounding convention.
pub const POW10_4: i128 = 10_000;

/// `10^10`: the scale at which logarithms and the Magnus term are carried.
pub const POW10_10: i128 = 10_000_000_000;

/// Magnitude bounds used in the contracts, so that every intermediate
/// product provably fits in an `i128`.
pub const POW10_7: i128 = 10_000_000;
pub const POW10_12: i128 = 1_000_000_000_000;
pub const POW10_14: i128 = 100_000_000_000_000;
pub const POW10_16: i128 = 10_000_000_000_000_000;
pub const POW10_18: i128 = 1_000_000_000_000_000_000;
pub const POW10_22: i128 = 10_000_000_000_000_000_000_000;
pub const POW10_27: i128 = 1_000_000_000_000_000_000_000_000_000;
pub const POW10_28: i128 = 10_000_000_000_000_000_000_000_000_000;
pub const POW10_33: i128 = 1_000_000_000_000_000_000_000_000_000_000_000;

/// Limits under which the rounding helper cannot overflow an `i128`:
/// `2 * ROUND_NUM_LIMIT + ROUND_DEN_LIMIT` stays below `i128::MAX`.
pub const ROUND_NUM_LIMIT: i128 = 60_000_000_000_000_000_000_000_000_000_000_000_000;
pub const ROUND_DEN_LIMIT: i128 = 40_000_000_000_000_000_000_000_000_000_000_000_000;

/// A rational number `num / den` with `den > 0`, held in machine integers.
#[derive(Clone, Copy, PartialEq, Eq, Structural, Debug)]
pub struct Rat {
    pub num: i128,
    pub den: i128,
}

/// The mathematical value of a `Rat`: a fraction over unbounded integers.
pub struct Frac {
    pub num: int,
    pub den: int,
}

/// Builds a `Frac` from a numerator and a denominator.
pub open spec fn frac(num: int, den: int) -> Frac {
    Frac { num, den }
}

impl Frac {
    /// A well-formed fraction keeps its denominator positive.
    pub open spec fn wf(self) -> bool {
        self.den > 0
    }

    /// The two fractions denote the same rational number.
    pub open spec fn eqv(self, other: Frac) -> bool {
        self.num * other.den == other.num * self.den
    }

    /// `self <= other` as rational numbers (meaningful when both are well formed).
    pub open spec fn le(self, other: Frac) -> bool {
        self.num * other.den <= other.num * self.den
    }

    /// Exact sum.
    pub open spec fn plus(self, other: Frac) -> Frac {
        frac(self.num * other.den + other.num * self.den, self.den * other.den)
    }

    /// Exact difference.
    pub open spec fn minus(self, other: Frac) -> Frac {
        frac(self.num * other.den - other.num * self.den, self.den * other.den)
    }

    /// Exact product.
    pub open spec fn times(self, other: Frac) -> Frac {
        frac(self.num * other.num, self.den * other.den)
    }

    /// Exact quotient, with the sign moved into the numerator so that a
    /// well-formed divisor with a nonzero numerator yields a well-formed
    /// result.
    pub open spec fn over(self, other: Frac) -> Frac {
        if other.num >= 0 {
            frac(self.num * other.den, self.den * other.num)
        } else {
            frac(-(self.num * other.den), -(self.den * other.num))
        }
    }

    /// Absolute value.
    pub open spec fn abs(self) -> Frac {
        if self.num >= 0 {
            self
        } else {
            frac(-self.num, self.den)
        }
    }

    /// Nearest fraction with denominator `scale`, halves away from zero.
    pub open spec fn round_to(self, scale: int) -> Frac {
        frac(round_half_from_zero(self.num * scale, self.den), scale)
    }

    /// The shared rounding convention: four decimal places.
    pub open spec fn round4(self) -> Frac {
        self.round_to(POW10_4 as int)
    }
}

/// `num / den` rounded to the nearest integer, halves away from zero.
pub open spec fn round_half_from_zero(num: int, den: int) -> int
    recommends
        den > 0,
{
    if num >= 0 {
        (2 * num + den) / (2 * den)
    } else {
        -((2 * (-num) + den) / (2 * den))
    }
}

impl View for Rat {
    type V = Frac;

    open spec fn view(&self) -> Frac {
        frac(self.num as int, self.den as int)
    }
}

impl Rat {
    /// The machine representation is well formed: positive denominator.
    pub open spec fn wf(self) -> bool {
        self.den > 0
    }

    /// Numerator and denominator both within `b` in magnitude.
    pub open spec fn bounded(self, b: i128) -> bool {
        &&& -b <= self.num <= b
        &&& 0 < self.den <= b
    }

    /// A direct measurement: at most four decimal places, with a numerator
    /// within ten million, which covers every physically meaningful
    /// temperature, humidity or pressure reading.
    pub open spec fn is_measurement(self) -> bool {
        &&& 0 < self.den <= POW10_4
        &&& -POW10_7 <= self.num <= POW10_7
    }

    /// Builds the rational `num / den`.
    pub fn new(num: i128, den: i128) -> (r: Rat)
        requires
            den > 0,
        ensures
            r.wf(),
            r@ == frac(num as int, den as int),
    {
        Rat { num, den }
    }

    /// Builds a whole number.
    pub fn from_int(n: i128) -> (r: Rat)
        ensures
            r.wf(),
            r@ == frac(n as int, 1),
    {
        Rat { num: n, den: 1 }
    }

    /// Whether the two rationals denote the same number.
    pub fn eq_value(self, other: Rat) -> (r: bool)
        requires
            self.wf(),
            other.wf(),
            self.bounded(POW10_16),
            other.bounded(POW10_16),
        ensures
            r == self@.eqv(other@),
    {
        proof {
            lemma_mul_abs_le(self.num as int, POW10_16 as int, other.den as int, POW10_16 as int);
            lemma_mul_abs_le(other.num as int, POW10_16 as int, self.den as int, POW10_16 as int);
        }
        self.num * other.den == other.num * self.den
    }
}

/// Bounds on a product follow from bounds on the factors.
pub proof fn lemma_mul_abs_le(x: int, bx: int, y: int, by_: int)
    by (nonlinear_arith)
    requires
        -bx <= x <= bx,
        -by_ <= y <= by_,
    ensures
        -(bx * by_) <= x * y <= bx * by_,
{
}

/// A product of positive factors is positive and bounded.
pub proof fn lemma_mul_pos_le(x: int, bx: int, y: int, by_: int)
    by (nonlinear_arith)
    requires
        0 < x <= bx,
        0 < y <= by_,
    ensures
        0 < x * y <= bx * by_,
{
}

/// A rounded quotient lies within any integer bound on the quotient itself.
pub proof fn lemma_round_half_bound(num: int, den: int, c: int)
    requires
        den > 0,
        c >= 0,
        -(c * den) <= num <= c * den,
    ensures
        -c <= round_half_from_zero(num, den) <= c,
{
    assert(2 * (c * den) + den == c * (2 * den) + den) by (nonlinear_arith);
    if num >= 0 {
        let q = (2 * num + den) / (2 * den);
        vstd::arithmetic::div_mod::lemma_div_pos_is_pos(2 * num + den, 2 * den);
        vstd::arithmetic::div_mod::lemma_div_is_ordered(
            2 * num + den,
            c * (2 * den) + den,
            2 * den,
        );
        vstd::arithmetic::div_mod::lemma_fundamental_div_mod_converse(
            c * (2 * den) + den,
            2 * den,
            c,
            den,
        );
        assert(q <= c);
    } else {
        let q = (2 * (-num) + den) / (2 * den);
        vstd::arithmetic::div_mod::lemma_div_pos_is_pos(2 * (-num) + den, 2 * den);
        vstd::arithmetic::div_mod::lemma_div_is_ordered(
            2 * (-num) + den,
            c * (2 * den) + den,
            2 * den,
        );
        vstd::arithmetic::div_mod::lemma_fundamental_div_mod_converse(
            c * (2 * den) + den,
            2 * den,
            c,
            den,
        );
        assert(q <= c);
    }
}

/// The rounded quotient is within half a unit of the quotient itself, and
/// strictly so on the side the tie-break moves away from.
pub proof fn lemma_round_half_characterization(num: int, den: int)
    requires
        den > 0,
    ensures
        2 * num - den <= 2 * den * round_half_from_zero(num, den) <= 2 * num + den,
        num >= 0 ==> 2 * num - den < 2 * den * round_half_from_zero(num, den),
        num < 0 ==> 2 * den * round_half_from_zero(num, den) < 2 * num + den,
{
    if num >= 0 {
        let q = (2 * num + den) / (2 * den);
        vstd::arithmetic::div_mod::lemma_fundamental_div_mod(2 * num + den, 2 * den);
        vstd::arithmetic::div_mod::lemma_mod_bound(2 * num + den, 2 * den);
        assert(2 * den * q == 2 * num + den - ((2 * num + den) % (2 * den)));
    } else {
        let q = (2 * (-num) + den) / (2 * den);
        vstd::arithmetic::div_mod::lemma_fundamental_div_mod(2 * (-num) + den, 2 * den);
        vstd::arithmetic::div_mod::lemma_mod_bound(2 * (-num) + den, 2 * den);
        assert(2 * den * q == 2 * (-num) + den - ((2 * (-num) + den) % (2 * den)));
        assert(2 * den * (-q) == -(2 * den * q)) by (nonlinear_arith);
    }
}

/// Rounding halves away from zero is monotone: a smaller quotient never
/// rounds above a larger one.
pub proof fn lemma_round_half_monotone(p1: int, q1: int, p2: int, q2: int)
    requires
        q1 > 0,
        q2 > 0,
        p1 * q2 <= p2 * q1,
    ensures
        round_half_from_zero(p1, q1) <= round_half_from_zero(p2, q2),
{
    let r1 = round_half_from_zero(p1, q1);
    let r2 = round_half_from_zero(p2, q2);
    lemma_round_half_characterization(p1, q1);
    lemma_round_half_characterization(p2, q2);
    if r1 > r2 {
        if p1 >= 0 && p2 >= 0 {
            assert(false) by (nonlinear_arith)
                requires
                    q1 > 0,
                    q2 > 0,
                    p1 * q2 <= p2 * q1,
                    r1 >= r2 + 1,
                    2 * q1 * r1 <= 2 * p1 + q1,
                    2 * p2 - q2 < 2 * q2 * r2,
            ;
        } else if p1 < 0 {
            assert(false) by (nonlinear_arith)
                requires
                    q1 > 0,
                    q2 > 0,
                    p1 * q2 <= p2 * q1,
                    r1 >= r2 + 1,
                    2 * q1 * r1 < 2 * p1 + q1,
                    2 * p2 - q2 <= 2 * q2 * r2,
            ;
        } else {
            assert(p1 >= 0 && p2 < 0);
            assert(false) by (nonlinear_arith)
                requires
                    q1 > 0,
                    q2 > 0,
                    p1 * q2 <= p2 * q1,
                    p1 >= 0,
                    p2 < 0,
                    r1 >= r2 + 1,
                    2 * q1 * r1 <= 2 * p1 + q1,
                    2 * p2 - q2 <= 2 * q2 * r2,
            ;
        }
    }
}

/// Rounding an exact multiple of the denominator returns the multiplier.
pub proof fn lemma_round_half_exact(k: int, den: int)
    requires
        den > 0,
    ensures
        round_half_from_zero(k * den, den) == k,
{
    if k >= 0 {
        assert(k * den >= 0) by (nonlinear_arith)
            requires
                k >= 0,
                den > 0,
        ;
        assert(2 * (k * den) + den == k * (2 * den) + den) by (nonlinear_arith);
        vstd::arithmetic::div_mod::lemma_fundamental_div_mod_converse(
            k * (2 * den) + den,
            2 * den,
            k,
            den,
        );
    } else {
        assert(k * den < 0) by (nonlinear_arith)
            requires
                k < 0,
                den > 0,
        ;
        assert(2 * (-(k * den)) + den == (-k) * (2 * den) + den) by (nonlinear_arith);
        vstd::arithmetic::div_mod::lemma_fundamental_div_mod_converse(
            (-k) * (2 * den) + den,
            2 * den,
            -k,
            den,
        );
    }
}

/// Rounding to four decimal places leaves a four-decimal fraction unchanged.
pub proof fn lemma_round4_identity(x: Frac)
    requires
        x.den == POW10_4 as int,
    ensures
        x.round4() == x,
{
    lemma_round_half_exact(x.num, x.den);
}

/// Rounds `r` to the nearest fraction with denominator `scale`, halves away
/// from zero.
pub fn round_to_scale(r: Rat, scale: i128) -> (s: Rat)
    requires
        r.wf(),
        0 < scale <= POW10_10,
        -ROUND_NUM_LIMIT <= r.num * scale <= ROUND_NUM_LIMIT,
        r.den <= ROUND_DEN_LIMIT,
    ensures
        s.wf(),
        s@ == r@.round_to(scale as int),
        s.den == scale,
{
    let num_scaled: i128 = r.num * scale;
    let num_rounded: i128 = round_half_div(num_scaled, r.den);
    Rat { num: num_rounded, den: scale }
}

/// `num / den` rounded to the nearest integer, halves away from zero.
fn round_half_div(num: i128, den: i128) -> (q: i128)
    requires
        0 < den <= ROUND_DEN_LIMIT,
        -ROUND_NUM_LIMIT <= num <= ROUND_NUM_LIMIT,
    ensures
        q == round_half_from_zero(num as int, den as int),
{
    if num >= 0 {
        let a: u128 = (2 * num + den) as u128;
        let b: u128 = (2 * den) as u128;
        let q: u128 = a / b;
        assert(q <= a);
        q as i128
    } else {
        let a: u128 = (2 * (-num) + den) as u128;
        let b: u128 = (2 * den) as u128;
        let q: u128 = a / b;
        assert(q <= a);
        -(q as i128)
    }
}

} // verus!

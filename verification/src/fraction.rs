//! Exact fractions, and scaling whole pixels by them.

use vstd::prelude::*;

verus! {

/// `num / den`.
#[derive(Debug, Clone, Copy, PartialEq, Eq, Structural)]
pub struct Fraction {
    pub num: u16,
    pub den: u16,
}

impl Fraction {
    #[verifier::allow_in_spec]
    pub fn new(num: u16, den: u16) -> Fraction
        returns
            (Fraction { num, den }),
    {
        Fraction { num, den }
    }
}

/// The integer nearest to `n / d`, ties going away from zero.
pub open spec fn round_div(n: int, d: int) -> int
    recommends
        d > 0,
{
    if n >= 0 {
        (2 * n + d) / (2 * d)
    } else {
        -((2 * (-n) + d) / (2 * d))
    }
}

/// What makes `round_div` a rounding: it is at most half a unit off, and a result that is
/// exactly half a unit off lies on the side away from zero.
pub proof fn law_round_div_is_nearest(n: int, d: int)
    requires
        d > 0,
    ensures
        -d <= 2 * (round_div(n, d) * d - n) <= d,
        n >= 0 ==> -d < 2 * (round_div(n, d) * d - n),
        n < 0 ==> 2 * (round_div(n, d) * d - n) < d,
{
    let a = if n >= 0 {
        n
    } else {
        -n
    };
    let q = (2 * a + d) / (2 * d);
    let r = (2 * a + d) % (2 * d);
    assert(2 * a + d == (2 * d) * q + r && 0 <= r < 2 * d) by (nonlinear_arith)
        requires
            d > 0,
            q == (2 * a + d) / (2 * d),
            r == (2 * a + d) % (2 * d),
    ;
    assert((2 * d) * q == 2 * (q * d)) by (nonlinear_arith);
    assert((-q) * d == -(q * d)) by (nonlinear_arith);
}

/// The only integer strictly less than half a unit from `n / d` is the rounded one.
pub proof fn lemma_round_div_unique(n: int, d: int, q: int)
    requires
        d > 0,
        -d < 2 * (q * d - n) < d,
    ensures
        round_div(n, d) == q,
{
    law_round_div_is_nearest(n, d);
    let p = round_div(n, d);
    assert(p == q) by (nonlinear_arith)
        requires
            d > 0,
            -d < 2 * (q * d - n) < d,
            -d <= 2 * (p * d - n) <= d,
    ;
}

/// Rounding keeps the order.
pub proof fn lemma_round_div_monotone(a: int, b: int, d: int)
    requires
        d > 0,
        a <= b,
    ensures
        round_div(a, d) <= round_div(b, d),
{
    law_round_div_is_nearest(a, d);
    law_round_div_is_nearest(b, d);
    let p = round_div(a, d);
    let q = round_div(b, d);
    if p > q {
        assert((p - q) * d >= d) by (nonlinear_arith)
            requires
                p > q,
                d > 0,
        ;
        assert((p - q) * d == p * d - q * d) by (nonlinear_arith);
        // Both are half a unit off, from the same n / d.
        assert(2 * (p * d - a) == d && 2 * (q * d - b) == -d && a == b);
        assert(false);
    }
}

/// Rounding a whole number does nothing.
pub proof fn lemma_round_div_whole(k: int, d: int)
    requires
        d > 0,
    ensures
        round_div(k * d, d) == k,
{
    lemma_round_div_unique(k * d, d, k);
}

/// Extending numerator and denominator alike changes nothing.
pub proof fn lemma_round_div_cancel(n: int, d: int, k: int)
    requires
        d > 0,
        k > 0,
    ensures
        round_div(n * k, d * k) == round_div(n, d),
{
    let a = if n >= 0 {
        n
    } else {
        -n
    };
    assert(d * k > 0) by (nonlinear_arith)
        requires
            d > 0,
            k > 0,
    ;
    assert((2 * (a * k) + d * k) == k * (2 * a + d)) by (nonlinear_arith);
    assert(2 * (d * k) == k * (2 * d)) by (nonlinear_arith);
    vstd::arithmetic::div_mod::lemma_div_multiples_vanish_quotient(k, 2 * a + d, 2 * d);
    if n >= 0 {
        assert(n * k >= 0) by (nonlinear_arith)
            requires
                n >= 0,
                k > 0,
        ;
    } else {
        assert(n * k < 0) by (nonlinear_arith)
            requires
                n < 0,
                k > 0,
        ;
        assert(-(n * k) == a * k) by (nonlinear_arith)
            requires
                a == -n,
        ;
    }
}

/// The integer nearest to `n / d`, ties going away from zero.
pub(crate) fn round_quotient(n: i128, d: i128) -> (q: i128)
    requires
        0 < d <= 0x1_0000_0000,
        -0x1_0000_0000_0000_0000_0000 <= n <= 0x1_0000_0000_0000_0000_0000,
    ensures
        q == round_div(n as int, d as int),
{
    if n >= 0 {
        (2 * n + d) / (2 * d)
    } else {
        -((2 * (-n) + d) / (2 * d))
    }
}

/// Scaling down brings a number no further from zero.
pub proof fn lemma_scaled_down(v: int, n: int, d: int)
    requires
        0 <= n <= d,
        0 < d,
    ensures
        0 <= v ==> 0 <= round_div(v * n, d) <= v,
        v <= 0 ==> v <= round_div(v * n, d) <= 0,
{
    lemma_round_div_whole(v, d);
    lemma_round_div_whole(0, d);
    if v >= 0 {
        assert(0 * d <= v * n && v * n <= v * d) by (nonlinear_arith)
            requires
                0 <= n <= d,
                0 <= v,
        ;
        lemma_round_div_monotone(0, v * n, d);
        lemma_round_div_monotone(v * n, v * d, d);
    }
    if v <= 0 {
        assert(v * n <= 0 * d && v * d <= v * n) by (nonlinear_arith)
            requires
                0 <= n <= d,
                v <= 0,
        ;
        lemma_round_div_monotone(v * n, 0, d);
        lemma_round_div_monotone(v * d, v * n, d);
    }
}

impl Fraction {
    /// The fraction is between nothing and one.
    pub open spec fn is_part(self) -> bool {
        0 < self.den && self.num <= self.den
    }

    /// The fraction of `v`, to the nearest pixel.
    pub open spec fn of(self, v: int) -> int {
        round_div(v * self.num, self.den as int)
    }

    /// A part of `v`, to the nearest pixel.
    pub fn part_of(self, v: i32) -> (r: i32)
        requires
            self.is_part(),
        ensures
            r == self.of(v as int),
    {
        proof {
            lemma_scaled_down(v as int, self.num as int, self.den as int);
        }
        let n: i128 = v as i128;
        let num: i128 = self.num as i128;
        assert(-0x1_0000_0000_0000 <= n * num <= 0x1_0000_0000_0000) by (nonlinear_arith)
            requires
                -0x8000_0000 <= n <= 0x8000_0000,
                0 <= num <= 0xffff,
        ;
        round_quotient(n * num, self.den as i128) as i32
    }
}

/// The fraction of a number is the integer nearest to it, ties going away from zero; the whole of
/// a number is the number.
pub proof fn law_fraction_of_a_number_is_nearest(f: Fraction, v: int)
    requires
        f.den > 0,
    ensures
        -f.den <= 2 * (f.of(v) * f.den - v * f.num) <= f.den,
        v >= 0 ==> -f.den < 2 * (f.of(v) * f.den - v * f.num),
        v < 0 && f.num > 0 ==> 2 * (f.of(v) * f.den - v * f.num) < f.den,
        f.num == f.den ==> f.of(v) == v,
        f.num == 0 ==> f.of(v) == 0,
{
    law_round_div_is_nearest(v * f.num, f.den as int);
    lemma_round_div_whole(v, f.den as int);
    lemma_round_div_whole(0, f.den as int);
    let n = f.num as int;
    assert(v >= 0 ==> v * n >= 0) by (nonlinear_arith)
        requires
            n >= 0,
    ;
    assert(v < 0 && n > 0 ==> v * n < 0) by (nonlinear_arith);
    assert(n == 0 ==> v * n == 0) by (nonlinear_arith);
}

} // verus!

//! Rounding an exact ratio of two integers to the nearest integer.

use vstd::prelude::*;

verus! {

/// The integer nearest to `num / den` for a positive `den`. A ratio that lies
/// exactly halfway between two integers goes to the even one.
pub open spec fn nearest(num: int, den: int) -> int
    recommends
        den > 0,
{
    let q = num / den;
    let r = num % den;
    if 2 * r < den || (2 * r == den && q % 2 == 0) {
        q
    } else {
        q + 1
    }
}

/// What it means for `n` to be the rounded value of `num / den`: `n` is at
/// most one half away from the ratio, and when it is exactly one half away it
/// is even.
pub open spec fn is_nearest(n: int, num: int, den: int) -> bool {
    let gap = 2 * (n * den - num);
    &&& -den <= gap <= den
    &&& (gap == den || gap == -den) ==> n % 2 == 0
}

/// `nearest` meets `is_nearest`.
pub proof fn lemma_nearest_is_nearest(num: int, den: int)
    requires
        den > 0,
    ensures
        is_nearest(nearest(num, den), num, den),
{
    let q = num / den;
    let r = num % den;
    assert(num == den * q + r && 0 <= r < den) by {
        vstd::arithmetic::div_mod::lemma_fundamental_div_mod(num, den);
        vstd::arithmetic::div_mod::lemma_mod_bound(num, den);
    }
    assert((q + 1) * den == den * q + den) by (nonlinear_arith);
    assert(q * den == den * q) by (nonlinear_arith);
}

/// Only one integer meets `is_nearest`.
pub proof fn lemma_nearest_unique(n: int, num: int, den: int)
    requires
        den > 0,
        is_nearest(n, num, den),
    ensures
        n == nearest(num, den),
{
    let m = nearest(num, den);
    lemma_nearest_is_nearest(num, den);
    // Twice the two gaps differ by 2 * (n - m) * den and each lies within den.
    assert(2 * (n * den - num) - 2 * (m * den - num) == 2 * ((n - m) * den)) by (nonlinear_arith);
    if n > m {
        assert((n - m) * den >= den) by (nonlinear_arith)
            requires
                n - m >= 1,
                den > 0,
        ;
        assert(n - m == 1) by (nonlinear_arith)
            requires
                n - m >= 1,
                den > 0,
                (n - m) * den <= den,
        ;
    } else if n < m {
        assert((m - n) * den >= den) by (nonlinear_arith)
            requires
                m - n >= 1,
                den > 0,
        ;
        assert((n - m) * den == -((m - n) * den)) by (nonlinear_arith);
        assert(m - n == 1) by (nonlinear_arith)
            requires
                m - n >= 1,
                den > 0,
                (m - n) * den <= den,
        ;
    }
}

/// A multiple of the denominator rounds to its factor.
pub proof fn lemma_nearest_exact(n: int, den: int)
    requires
        den > 0,
    ensures
        nearest(n * den, den) == n,
{
    lemma_nearest_unique(n, n * den, den);
}

/// Rounding keeps order: a larger numerator never rounds to a smaller integer.
pub proof fn lemma_nearest_monotone(a: int, b: int, den: int)
    requires
        den > 0,
        a <= b,
    ensures
        nearest(a, den) <= nearest(b, den),
{
    let m = nearest(a, den);
    let n = nearest(b, den);
    lemma_nearest_is_nearest(a, den);
    lemma_nearest_is_nearest(b, den);
    if m > n {
        // Both gaps would have to be exact halves of opposite sign, which
        // makes m and n two even numbers one apart.
        assert((m - n) * den == m * den - n * den) by (nonlinear_arith);
        assert((m - n) * den >= den) by (nonlinear_arith)
            requires
                m - n >= 1,
                den > 0,
        ;
        assert(m - n == 1) by (nonlinear_arith)
            requires
                m - n >= 1,
                den > 0,
                (m - n) * den <= den,
        ;
    }
}

/// A ratio that lies between two integers rounds to a value between them.
pub proof fn lemma_nearest_bounds(num: int, den: int, lo: int, hi: int)
    requires
        den > 0,
        lo * den <= num <= hi * den,
    ensures
        lo <= nearest(num, den) <= hi,
{
    lemma_nearest_exact(lo, den);
    lemma_nearest_exact(hi, den);
    lemma_nearest_monotone(lo * den, num, den);
    lemma_nearest_monotone(num, hi * den, den);
}

/// Rounds `num / den` to the nearest integer, halves to even.
pub fn round_div(num: i128, den: i128) -> (r: i128)
    requires
        den > 0,
    ensures
        r == nearest(num as int, den as int),
{
    let q: i128;
    let rem: i128;
    if num >= 0 {
        q = num / den;
        rem = num % den;
    } else {
        // num == -(a + 1) with a >= 0, so the floor of num / den is -(a / den) - 1.
        let a: i128 = -(num + 1);
        q = -(a / den) - 1;
        rem = den - 1 - a % den;
        proof {
            let ai = a as int;
            let di = den as int;
            vstd::arithmetic::div_mod::lemma_fundamental_div_mod(ai, di);
            vstd::arithmetic::div_mod::lemma_mod_bound(ai, di);
            assert(di * (-(ai / di) - 1) == -(di * (ai / di)) - di) by (nonlinear_arith);
            vstd::arithmetic::div_mod::lemma_fundamental_div_mod_converse(
                num as int,
                di,
                q as int,
                rem as int,
            );
        }
    }
    assert(q == num as int / den as int && rem == num as int % den as int);
    proof {
        vstd::arithmetic::div_mod::lemma_fundamental_div_mod(num as int, den as int);
    }
    if rem < den - rem || (rem == den - rem && q % 2 == 0) {
        q
    } else {
        assert(q < i128::MAX) by (nonlinear_arith)
            requires
                num as int == den as int * q as int + rem as int,
                rem >= 1,
                den >= 2,
                num <= i128::MAX,
                rem < den,
        ;
        q + 1
    }
}

} // verus!

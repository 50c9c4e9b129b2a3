//! The numbers the calculations take and give: quantities in thousandths and
//! results that may be non-finite.

use crate::rounding::{lemma_nearest_bounds, nearest, round_div};
use vstd::prelude::*;

verus! {

/// A quantity held in thousandths of its unit, be that kilograms, miles per
/// hour, inches, or a plain ratio. `Milli { thousandths: 26_500 }` is 26.5.
#[derive(Clone, Copy, Debug, PartialEq, Eq, Structural)]
pub struct Milli {
    /// The quantity, counted in thousandths.
    pub thousandths: i32,
}

impl View for Milli {
    type V = int;

    /// The number of thousandths.
    open spec fn view(&self) -> int {
        self.thousandths as int
    }
}

/// The largest magnitude a finite `Figure` holds.
pub const FIGURE_MAX: i64 = 0x7fff_ffff_ffff_ffff;

/// The result of a calculation, at the resolution its function documents.
///
/// A division by zero does not fail: a positive dividend gives
/// `PosInfinity`, a negative one `NegInfinity`, and zero divided by zero
/// gives `NotANumber`.
#[derive(Clone, Copy, Debug, PartialEq, Eq, Structural)]
pub enum Figure {
    Finite(i64),
    PosInfinity,
    NegInfinity,
    NotANumber,
}

/// A ratio of two integers rounded to an integer, or what stands for it when
/// the denominator is zero. This is the mathematical value of a `Figure`.
pub enum Rounded {
    Finite(int),
    PosInfinity,
    NegInfinity,
    NotANumber,
}

impl Rounded {
    /// Both values are finite and `self` is no larger than `other`.
    pub open spec fn at_most(self, other: Rounded) -> bool {
        match (self, other) {
            (Rounded::Finite(a), Rounded::Finite(b)) => a <= b,
            _ => false,
        }
    }
}

impl View for Figure {
    type V = Rounded;

    open spec fn view(&self) -> Rounded {
        match *self {
            Figure::Finite(n) => Rounded::Finite(n as int),
            Figure::PosInfinity => Rounded::PosInfinity,
            Figure::NegInfinity => Rounded::NegInfinity,
            Figure::NotANumber => Rounded::NotANumber,
        }
    }
}

/// `num / den` rounded to the nearest integer, halves to even, for any
/// denominator: a negative one flips both signs, and zero gives the
/// non-finite outcome that the sign of `num` selects.
pub open spec fn quotient(num: int, den: int) -> Rounded {
    if den > 0 {
        Rounded::Finite(nearest(num, den))
    } else if den < 0 {
        Rounded::Finite(nearest(-num, -den))
    } else if num > 0 {
        Rounded::PosInfinity
    } else if num < 0 {
        Rounded::NegInfinity
    } else {
        Rounded::NotANumber
    }
}

/// Whether `num / den` can be rounded into a `Figure`: both numbers can be
/// negated, and the ratio is no larger in magnitude than `FIGURE_MAX`.
pub open spec fn ratio_fits(num: int, den: int) -> bool {
    &&& i128::MIN < num
    &&& i128::MIN < den
    &&& den > 0 ==> -(FIGURE_MAX * den) <= num <= FIGURE_MAX * den
    &&& den < 0 ==> -(FIGURE_MAX * -den) <= num <= FIGURE_MAX * -den
}

impl Figure {
    /// Rounds the ratio of two integers into a `Figure`.
    pub fn from_ratio(num: i128, den: i128) -> (r: Figure)
        requires
            ratio_fits(num as int, den as int),
        ensures
            r@ == quotient(num as int, den as int),
    {
        if den == 0 {
            if num > 0 {
                Figure::PosInfinity
            } else if num < 0 {
                Figure::NegInfinity
            } else {
                Figure::NotANumber
            }
        } else {
            let (n, d): (i128, i128) = if den < 0 {
                (-num, -den)
            } else {
                (num, den)
            };
            proof {
                lemma_nearest_bounds(n as int, d as int, -(FIGURE_MAX as int), FIGURE_MAX as int);
            }
            let rounded: i128 = round_div(n, d);
            Figure::Finite(rounded as i64)
        }
    }
}

} // verus!

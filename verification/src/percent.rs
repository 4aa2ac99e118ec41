//! Whole percentages with truncating arithmetic.

use vstd::prelude::*;
use crate::arith::{div_toward_zero, lemma_trunc_div_bounds, max_span, trunc_div};

verus! {

/// `value` as a percentage of `total`: `100 * value / total` rounded toward
/// zero, and 0 where `total` is 0.
pub open spec fn percent_of(value: int, total: int) -> int {
    trunc_div(100 * value, total)
}

/// `percent` hundredths of `total`, rounded toward zero.
pub open spec fn portion(percent: int, total: int) -> int {
    trunc_div(total * percent, 100)
}

/// A whole number of hundredths.
#[derive(Clone, Copy, Debug)]
pub struct Percent {
    value: i64,
}

impl View for Percent {
    type V = int;

    closed spec fn view(&self) -> int {
        self.value as int
    }
}

impl Percent {
    /// The percentage with the given number of hundredths.
    pub fn new(value: i32) -> (p: Percent)
        ensures
            p@ == value,
    {
        Percent { value: value as i64 }
    }

    /// `what` as a percentage of `by`, rounded toward zero; 0 where `by` is 0.
    pub fn div(what: i32, by: i32) -> (p: Percent)
        ensures
            p@ == percent_of(what as int, by as int),
    {
        Percent::ratio(what as i64, by as i64)
    }

    /// `value` as a percentage of `total`, for a `value` no wider than the
    /// distance between two coordinates.
    pub fn ratio(value: i64, total: i64) -> (p: Percent)
        requires
            -max_span() <= value <= max_span(),
        ensures
            p@ == percent_of(value as int, total as int),
    {
        proof {
            lemma_trunc_div_bounds(100 * value, total as int);
        }
        let q: i128 = div_toward_zero(100 * (value as i128), total as i128);
        Percent { value: q as i64 }
    }

    /// This many hundredths of `rhs`, rounded toward zero.
    pub fn mul(self, rhs: i64) -> (r: i64)
        requires
            i64::MIN <= portion(self@, rhs as int) <= i64::MAX,
        ensures
            r == portion(self@, rhs as int),
    {
        proof {
            let product: int = rhs * self.value;
            assert(-0x8000_0000_0000_0000i128 * 0x8000_0000_0000_0000i128 <= product
                <= 0x8000_0000_0000_0000i128 * 0x8000_0000_0000_0000i128) by (nonlinear_arith)
                requires
                    product == rhs * self.value,
                    -0x8000_0000_0000_0000i128 <= rhs <= 0x8000_0000_0000_0000i128,
                    -0x8000_0000_0000_0000i128 <= self.value <= 0x8000_0000_0000_0000i128,
            ;
        }
        let q: i128 = div_toward_zero((rhs as i128) * (self.value as i128), 100);
        q as i64
    }

    /// The number of hundredths.
    pub fn value(&self) -> (v: i64)
        ensures
            v == self@,
    {
        self.value
    }

    /// Whether this percentage lies strictly below `other`.
    pub fn below(&self, other: Percent) -> (b: bool)
        ensures
            b == (self@ < other@),
    {
        self.value < other.value
    }
}

} // verus!

//! Integer helpers shared by the geometry: truncating division and the
//! subtraction that refuses a negative result.

use vstd::prelude::*;

verus! {

/// The quotient of `a` by `b` rounded toward zero, and 0 where `b` is 0.
pub open spec fn trunc_div(a: int, b: int) -> int {
    if b == 0 {
        0
    } else if a >= 0 && b > 0 {
        a / b
    } else if a >= 0 && b < 0 {
        -(a / (-b))
    } else if a < 0 && b > 0 {
        -((-a) / b)
    } else {
        (-a) / (-b)
    }
}

/// The largest distance between two `i32` values.
pub open spec fn max_span() -> int {
    0xffff_ffff
}

/// Truncating division never grows the dividend, and keeps its sign unless
/// the divisor is negative.
pub proof fn lemma_trunc_div_bounds(a: int, b: int)
    ensures
        a >= 0 ==> -a <= trunc_div(a, b) <= a,
        a <= 0 ==> a <= trunc_div(a, b) <= -a,
        a >= 0 && b > 0 ==> 0 <= trunc_div(a, b),
        a <= 0 && b > 0 ==> trunc_div(a, b) <= 0,
{
    if b != 0 {
        let n: int = if a >= 0 { a } else { -a };
        let d: int = if b > 0 { b } else { -b };
        assert(0 <= n / d <= n) by (nonlinear_arith)
            requires
                n >= 0,
                d > 0,
        ;
    }
}

/// For a positive divisor the truncated quotient `q` of a non-negative `a` is
/// the one integer with `q * b <= a < (q + 1) * b`.
pub proof fn lemma_trunc_div_quotient(a: int, b: int)
    requires
        a >= 0,
        b > 0,
    ensures
        trunc_div(a, b) * b <= a < (trunc_div(a, b) + 1) * b,
        trunc_div(a, b) >= 0,
{
    assert((a / b) * b <= a < (a / b + 1) * b && a / b >= 0) by (nonlinear_arith)
        requires
            a >= 0,
            b > 0,
    ;
}

/// Truncating division by a positive divisor is monotone on non-negative
/// dividends.
pub proof fn lemma_trunc_div_monotone(a: int, c: int, b: int)
    requires
        0 <= a <= c,
        b > 0,
    ensures
        trunc_div(a, b) <= trunc_div(c, b),
{
    assert(a / b <= c / b) by (nonlinear_arith)
        requires
            0 <= a <= c,
            b > 0,
    ;
}

/// Divides with rounding toward zero; a zero divisor gives 0.
pub fn div_toward_zero(a: i128, b: i128) -> (q: i128)
    requires
        a > i128::MIN,
    ensures
        q == trunc_div(a as int, b as int),
{
    proof {
        lemma_trunc_div_bounds(a as int, b as int);
    }
    match a.checked_div(b) {
        Some(q) => q,
        None => 0,
    }
}

/// `a - b` where that is neither negative nor too large for the type.
pub fn non_neg_sub(a: i64, b: i64) -> (r: Option<i64>)
    ensures
        r == (if 0 <= a - b <= i64::MAX {
            Some((a - b) as i64)
        } else {
            None::<i64>
        }),
{
    match a.checked_sub(b) {
        Some(x) => if x >= 0 {
            Some(x)
        } else {
            None
        },
        None => None,
    }
}

} // verus!

//! What each operation computes, stated over the mathematical integers.
//!
//! The executable operations work on signed 64-bit operands and report an
//! absent result where the exact answer does not exist or does not fit.
//! This module says what the exact answer is.

use vstd::prelude::*;
use crate::event::Operation;

verus! {

/// Whether `v` can be held in a signed 64-bit integer.
pub open spec fn fits_i64(v: int) -> bool {
    i64::MIN <= v <= i64::MAX
}

/// The absolute value of `v`.
#[verifier::inline]
pub open spec fn magnitude(v: int) -> int {
    if v < 0 {
        -v
    } else {
        v
    }
}

/// The quotient of `x` by `y`, rounded toward zero: the quotient of the
/// magnitudes, negative exactly when the operands differ in sign.
pub open spec fn truncated_quotient(x: int, y: int) -> int
    recommends
        y != 0,
{
    if (x < 0) == (y < 0) {
        magnitude(x) / magnitude(y)
    } else {
        -(magnitude(x) / magnitude(y))
    }
}

/// The exact answer of `op` on `x` and `y`, where one exists: division by
/// zero has none.
pub open spec fn exact_result(op: Operation, x: int, y: int) -> Option<int> {
    match op {
        Operation::Addition => Some(x + y),
        Operation::Subtraction => Some(x - y),
        Operation::Multiplication => Some(x * y),
        Operation::Division => if y == 0 {
            None
        } else {
            Some(truncated_quotient(x, y))
        },
    }
}

/// The checked answer of `op` on two signed 64-bit operands: the exact
/// answer where it exists and fits in 64 bits, and absent otherwise.
pub open spec fn checked_result(op: Operation, x: i64, y: i64) -> Option<i64> {
    match exact_result(op, x as int, y as int) {
        Some(v) => if fits_i64(v) {
            Some(v as i64)
        } else {
            None
        },
        None => None,
    }
}

/// Whether `q` is `x` divided by `y` and rounded toward zero, said without
/// dividing: what is left of `x` after taking `q` times `y` out of it is
/// smaller in magnitude than `y` and never of the opposite sign to `x`.
pub open spec fn rounds_toward_zero(x: int, y: int, q: int) -> bool {
    &&& magnitude(x - q * y) < magnitude(y)
    &&& x >= 0 ==> x - q * y >= 0
    &&& x <= 0 ==> x - q * y <= 0
}

/// The truncated quotient is `x` divided by `y` and rounded toward zero.
pub proof fn lemma_truncated_quotient_rounds_toward_zero(x: int, y: int)
    requires
        y != 0,
    ensures
        rounds_toward_zero(x, y, truncated_quotient(x, y)),
{
    let a = magnitude(x);
    let b = magnitude(y);
    let m = a / b;
    let t = truncated_quotient(x, y);
    assert(a == b * m + a % b && 0 <= a % b < b) by {
        vstd::arithmetic::div_mod::lemma_fundamental_div_mod(a, b);
        vstd::arithmetic::div_mod::lemma_mod_bound(a, b);
    }
    assert(magnitude(x - t * y) == a - b * m && (x >= 0 ==> x - t * y == a - b * m) && (x <= 0
        ==> x - t * y == -(a - b * m))) by (nonlinear_arith)
        requires
            a == magnitude(x),
            b == magnitude(y),
            y != 0,
            0 <= a - b * m < b,
            t == (if (x < 0) == (y < 0) {
                m
            } else {
                -m
            }),
    ;
}

/// No other integer is: whatever rounds toward zero is the truncated
/// quotient.
pub proof fn lemma_truncated_quotient_unique(x: int, y: int, q: int)
    requires
        y != 0,
        rounds_toward_zero(x, y, q),
    ensures
        q == truncated_quotient(x, y),
{
    let t = truncated_quotient(x, y);
    lemma_truncated_quotient_rounds_toward_zero(x, y);
    let d = q - t;
    assert((x - t * y) - (x - q * y) == d * y) by (nonlinear_arith)
        requires
            d == q - t,
    ;
    assert(magnitude(d * y) < magnitude(y));
    assert(d == 0) by (nonlinear_arith)
        requires
            y != 0,
            magnitude(d * y) < magnitude(y),
    ;
}

/// A quotient rounded toward zero is never larger in magnitude than the
/// dividend.
pub proof fn lemma_truncated_quotient_bounded(x: int, y: int)
    requires
        y != 0,
    ensures
        magnitude(truncated_quotient(x, y)) <= magnitude(x),
        magnitude(truncated_quotient(x, y)) == magnitude(x) / magnitude(y),
{
    let a = magnitude(x);
    let b = magnitude(y);
    assert(0 <= a / b <= a) by {
        vstd::arithmetic::div_mod::lemma_div_pos_is_pos(a, b);
        vstd::arithmetic::div_mod::lemma_div_is_ordered_by_denominator(a, 1, b);
        vstd::arithmetic::div_mod::lemma_div_basics(a);
    }
}

/// Addition yields the sum of the operands whenever the sum fits in 64 bits,
/// and is absent whenever it does not.
pub proof fn lemma_addition_is_sum_or_absent(x: i64, y: i64)
    ensures
        fits_i64(x + y) ==> checked_result(Operation::Addition, x, y) == Some((x + y) as i64),
        !fits_i64(x + y) ==> checked_result(Operation::Addition, x, y) is None,
{
}

/// Division by zero is absent, whatever is divided.
pub proof fn lemma_division_by_zero_is_absent(x: i64)
    ensures
        checked_result(Operation::Division, x, 0) is None,
{
}

/// Division is absent in exactly two cases: the divisor is zero, or the
/// least 64-bit value is divided by minus one, whose quotient is one more
/// than the greatest. In every other case it is the quotient rounded toward
/// zero.
pub proof fn lemma_division_absent_exactly(x: i64, y: i64)
    ensures
        checked_result(Operation::Division, x, y) is None <==> y == 0 || (x == i64::MIN && y
            == -1),
        checked_result(Operation::Division, x, y) matches Some(q) ==> q == truncated_quotient(
            x as int,
            y as int,
        ),
{
    if y != 0 {
        lemma_truncated_quotient_bounded(x as int, y as int);
        let a = magnitude(x as int);
        let b = magnitude(y as int);
        if b == 1 {
            vstd::arithmetic::div_mod::lemma_div_basics(a);
        } else if a > 0 {
            vstd::arithmetic::div_mod::lemma_div_is_strictly_smaller(a, b);
        }
    }
}

} // verus!

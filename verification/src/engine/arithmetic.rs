//! Checked arithmetic on the symmetric range `-i128::MAX ..= i128::MAX`.
//!
//! The range is symmetric so that negating a number never fails, which is what
//! makes an integral over reversed limits the exact negative of the integral
//! over the limits in order.
use vstd::prelude::*;

use crate::errors::Error;

verus! {

/// Whether `v` can be held.
pub open spec fn in_range(v: int) -> bool {
    -i128::MAX <= v <= i128::MAX
}

/// `v` as a held number, or the overflow it causes.
pub open spec fn bounded(v: int) -> Result<i128, Error> {
    if in_range(v) {
        Ok(v as i128)
    } else {
        Err(Error::Overflow)
    }
}

/// The quotient of `x` by a positive `d`, rounded toward zero.
pub open spec fn quotient(x: int, d: int) -> int
    recommends
        d > 0,
{
    if x >= 0 {
        x / d
    } else {
        -((-x) / d)
    }
}

/// The sum of two results: the first failure, or the bounded sum.
pub open spec fn sum_of(a: Result<i128, Error>, b: Result<i128, Error>) -> Result<i128, Error> {
    match (a, b) {
        (Ok(x), Ok(y)) => bounded(x + y),
        (Err(e), _) => Err(e),
        (_, Err(e)) => Err(e),
    }
}

/// The product of two results: the first failure, or the bounded product.
pub open spec fn product_of(a: Result<i128, Error>, b: Result<i128, Error>) -> Result<
    i128,
    Error,
> {
    match (a, b) {
        (Ok(x), Ok(y)) => bounded(x * y),
        (Err(e), _) => Err(e),
        (_, Err(e)) => Err(e),
    }
}

/// A result divided by a positive `d`, rounded toward zero.
pub open spec fn quotient_of(a: Result<i128, Error>, d: int) -> Result<i128, Error>
    recommends
        d > 0,
{
    match a {
        Ok(x) => bounded(quotient(x as int, d)),
        Err(e) => Err(e),
    }
}

/// `a + b`, or `Overflow` when the sum cannot be held.
pub fn checked_sum(a: i128, b: i128) -> (r: Result<i128, Error>)
    ensures
        r == bounded(a + b),
{
    match a.checked_add(b) {
        Some(v) => {
            if v == i128::MIN {
                Err(Error::Overflow)
            } else {
                Ok(v)
            }
        },
        None => Err(Error::Overflow),
    }
}

/// `a - b`, or `Overflow` when the difference cannot be held.
pub fn checked_difference(a: i128, b: i128) -> (r: Result<i128, Error>)
    ensures
        r == bounded(a - b),
{
    match a.checked_sub(b) {
        Some(v) => {
            if v == i128::MIN {
                Err(Error::Overflow)
            } else {
                Ok(v)
            }
        },
        None => Err(Error::Overflow),
    }
}

/// `a * b`, or `Overflow` when the product cannot be held.
pub fn checked_product(a: i128, b: i128) -> (r: Result<i128, Error>)
    ensures
        r == bounded(a * b),
{
    match a.checked_mul(b) {
        Some(v) => {
            if v == i128::MIN {
                Err(Error::Overflow)
            } else {
                Ok(v)
            }
        },
        None => Err(Error::Overflow),
    }
}

/// `a / d` rounded toward zero, for one of the rule's positive divisors.
pub fn checked_quotient(a: i128, d: i128) -> (r: Result<i128, Error>)
    requires
        d > 0,
    ensures
        r == bounded(quotient(a as int, d as int)),
{
    proof {
        lemma_quotient_magnitude(a as int, d as int);
    }
    if a == i128::MIN && d == 1 {
        Err(Error::Overflow)
    } else {
        let v: i128 = a / d;
        assert(v == quotient(a as int, d as int));
        Ok(v)
    }
}

/// Dividing by a positive number moves a number toward zero, and by two or
/// more moves it strictly unless it is zero.
pub proof fn lemma_quotient_magnitude(x: int, d: int)
    requires
        d > 0,
    ensures
        x >= 0 ==> 0 <= quotient(x, d) <= x,
        x <= 0 ==> x <= quotient(x, d) <= 0,
        d >= 2 && x < 0 ==> x < quotient(x, d),
{
    if x >= 0 {
        assert(0 <= x / d <= x) by (nonlinear_arith)
            requires
                x >= 0,
                d > 0,
        ;
    } else {
        let y = -x;
        assert(0 <= y / d <= y) by (nonlinear_arith)
            requires
                y >= 0,
                d > 0,
        ;
        if d >= 2 {
            assert(y / d < y) by (nonlinear_arith)
                requires
                    y > 0,
                    d >= 2,
            ;
        }
    }
}

/// Negating the dividend negates the quotient.
pub proof fn lemma_quotient_odd(x: int, d: int)
    requires
        d > 0,
    ensures
        quotient(-x, d) == -quotient(x, d),
{
    if x == 0 {
        assert(0int / d == 0) by (nonlinear_arith)
            requires
                d > 0,
        ;
    }
}

} // verus!

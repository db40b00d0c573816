//! An integral between equal limits is zero.
use vstd::prelude::*;

use crate::calculation_functions::{
    double_integral_simpson,
    single_integral_simpson,
    triple_integral_simpson,
};
use crate::errors::Error;

verus! {

/// An integral between equal limits is zero, whatever the integrand and the
/// half-step.
pub proof fn lemma_zero_width_single(
    equation: spec_fn(i128) -> Result<i128, Error>,
    a: i128,
    h: i128,
)
    ensures
        single_integral_simpson(equation, a, a, h) == Ok::<i128, Error>(0),
{
}

/// A double integral whose outer limits are equal is zero, whatever the
/// integrand, the inner limits and the half-steps.
pub proof fn lemma_zero_width_double(
    equation: spec_fn(i128, i128) -> Result<i128, Error>,
    a: i128,
    h: i128,
    second_begin: spec_fn(i128) -> Result<i128, Error>,
    second_end: spec_fn(i128) -> Result<i128, Error>,
    k: i128,
)
    ensures
        double_integral_simpson(equation, a, a, h, second_begin, second_end, k) == Ok::<
            i128,
            Error,
        >(0),
{
}

/// A triple integral whose outer limits are equal is zero, whatever the
/// integrand, the inner limits and the half-steps.
pub proof fn lemma_zero_width_triple(
    equation: spec_fn(i128, i128, i128) -> Result<i128, Error>,
    a: i128,
    h: i128,
    second_begin: spec_fn(i128) -> Result<i128, Error>,
    second_end: spec_fn(i128) -> Result<i128, Error>,
    k: i128,
    third_begin: spec_fn(i128, i128) -> Result<i128, Error>,
    third_end: spec_fn(i128, i128) -> Result<i128, Error>,
    l: i128,
)
    ensures
        triple_integral_simpson(
            equation,
            a,
            a,
            h,
            second_begin,
            second_end,
            k,
            third_begin,
            third_end,
            l,
        ) == Ok::<i128, Error>(0),
{
}

} // verus!

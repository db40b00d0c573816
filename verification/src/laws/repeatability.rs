//! The same integration twice gives the same outcome.
//!
//! An entry point promises, for every function that describes its integrand,
//! the integral of that function. So where any function describes the
//! integrand and the limits, two runs on the same inputs cannot differ: there
//! is no state between them.
use vstd::prelude::*;

use crate::calculation_functions::{
    double_integral_simpson,
    single_integral_simpson,
    triple_integral_simpson,
};
use crate::engine::function_types::{describes_one, describes_three, describes_two};
use crate::errors::Error;

verus! {

/// Whatever two runs of `calculate_single_integral_simpson` return for the
/// same limits and half-step is the same outcome, where some function
/// describes the integrand.
pub proof fn lemma_same_inputs_same_outcome<E: Fn(i128) -> Result<i128, Error>>(
    equation: E,
    description: spec_fn(i128) -> Result<i128, Error>,
    a: i128,
    b: i128,
    h: i128,
    first: Result<i128, Error>,
    second: Result<i128, Error>,
)
    requires
        describes_one(equation, description),
        forall|g: spec_fn(i128) -> Result<i128, Error>| #[trigger]
            describes_one(equation, g) ==> first == single_integral_simpson(g, a, b, h),
        forall|g: spec_fn(i128) -> Result<i128, Error>| #[trigger]
            describes_one(equation, g) ==> second == single_integral_simpson(g, a, b, h),
    ensures
        first == second,
{
}

/// Whatever two runs of `calculate_double_integral_simpson` return for the
/// same outer limits and half-steps is the same outcome, where some
/// functions describe the integrand and the inner limits.
pub proof fn lemma_same_inputs_same_outcome_double<
    E: Fn(i128, i128) -> Result<i128, Error>,
    F1: Fn(i128) -> Result<i128, Error>,
    F2: Fn(i128) -> Result<i128, Error>,
>(
    equation: E,
    second_begin: F1,
    second_end: F2,
    description: spec_fn(i128, i128) -> Result<i128, Error>,
    begin_description: spec_fn(i128) -> Result<i128, Error>,
    end_description: spec_fn(i128) -> Result<i128, Error>,
    a: i128,
    b: i128,
    h: i128,
    k: i128,
    first: Result<i128, Error>,
    second: Result<i128, Error>,
)
    requires
        describes_two(equation, description),
        describes_one(second_begin, begin_description),
        describes_one(second_end, end_description),
        forall|
            g: spec_fn(i128, i128) -> Result<i128, Error>,
            ga: spec_fn(i128) -> Result<i128, Error>,
            gb: spec_fn(i128) -> Result<i128, Error>,
        |
            #![trigger describes_two(equation, g), describes_one(second_begin, ga), describes_one(second_end, gb)]
            describes_two(equation, g) && describes_one(second_begin, ga) && describes_one(
                second_end,
                gb,
            ) ==> first == double_integral_simpson(g, a, b, h, ga, gb, k),
        forall|
            g: spec_fn(i128, i128) -> Result<i128, Error>,
            ga: spec_fn(i128) -> Result<i128, Error>,
            gb: spec_fn(i128) -> Result<i128, Error>,
        |
            #![trigger describes_two(equation, g), describes_one(second_begin, ga), describes_one(second_end, gb)]
            describes_two(equation, g) && describes_one(second_begin, ga) && describes_one(
                second_end,
                gb,
            ) ==> second == double_integral_simpson(g, a, b, h, ga, gb, k),
    ensures
        first == second,
{
}

/// Whatever two runs of `calculate_triple_integral_simpson` return for the
/// same outer limits and half-steps is the same outcome, where some
/// functions describe the integrand and the inner limits.
pub proof fn lemma_same_inputs_same_outcome_triple<
    E: Fn(i128, i128, i128) -> Result<i128, Error>,
    F1: Fn(i128) -> Result<i128, Error>,
    F2: Fn(i128) -> Result<i128, Error>,
    F3: Fn(i128, i128) -> Result<i128, Error>,
    F4: Fn(i128, i128) -> Result<i128, Error>,
>(
    equation: E,
    second_begin: F1,
    second_end: F2,
    third_begin: F3,
    third_end: F4,
    description: spec_fn(i128, i128, i128) -> Result<i128, Error>,
    second_begin_description: spec_fn(i128) -> Result<i128, Error>,
    second_end_description: spec_fn(i128) -> Result<i128, Error>,
    third_begin_description: spec_fn(i128, i128) -> Result<i128, Error>,
    third_end_description: spec_fn(i128, i128) -> Result<i128, Error>,
    a: i128,
    b: i128,
    h: i128,
    k: i128,
    l: i128,
    first: Result<i128, Error>,
    second: Result<i128, Error>,
)
    requires
        describes_three(equation, description),
        describes_one(second_begin, second_begin_description),
        describes_one(second_end, second_end_description),
        describes_two(third_begin, third_begin_description),
        describes_two(third_end, third_end_description),
        forall|
            g: spec_fn(i128, i128, i128) -> Result<i128, Error>,
            ga: spec_fn(i128) -> Result<i128, Error>,
            gb: spec_fn(i128) -> Result<i128, Error>,
            gc: spec_fn(i128, i128) -> Result<i128, Error>,
            gd: spec_fn(i128, i128) -> Result<i128, Error>,
        |
            #![trigger describes_three(equation, g), describes_one(second_begin, ga), describes_one(second_end, gb), describes_two(third_begin, gc), describes_two(third_end, gd)]
            describes_three(equation, g) && describes_one(second_begin, ga) && describes_one(
                second_end,
                gb,
            ) && describes_two(third_begin, gc) && describes_two(third_end, gd) ==> first
                == triple_integral_simpson(g, a, b, h, ga, gb, k, gc, gd, l),
        forall|
            g: spec_fn(i128, i128, i128) -> Result<i128, Error>,
            ga: spec_fn(i128) -> Result<i128, Error>,
            gb: spec_fn(i128) -> Result<i128, Error>,
            gc: spec_fn(i128, i128) -> Result<i128, Error>,
            gd: spec_fn(i128, i128) -> Result<i128, Error>,
        |
            #![trigger describes_three(equation, g), describes_one(second_begin, ga), describes_one(second_end, gb), describes_two(third_begin, gc), describes_two(third_end, gd)]
            describes_three(equation, g) && describes_one(second_begin, ga) && describes_one(
                second_end,
                gb,
            ) && describes_two(third_begin, gc) && describes_two(third_end, gd) ==> second
                == triple_integral_simpson(g, a, b, h, ga, gb, k, gc, gd, l),
    ensures
        first == second,
{
}

} // verus!

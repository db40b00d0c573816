//! Every stepped range ends in exactly one last step.
use vstd::prelude::*;

use crate::engine::quadrature::simpson::{
    lemma_simpson_step_positions,
    lemma_simpson_steps,
    steps_through,
};
use crate::engine::range_generator::ends_in_single_last;
use crate::engine::Bounds;

verus! {

/// Stepping through bounds that span something emits ordinary steps and then
/// exactly one last step: never two last steps in a row, and never none.
/// Through bounds that span nothing it emits no step at all.
pub proof fn lemma_stepping_ends_in_single_last(bounds: Bounds, h: i128)
    requires
        h > 0,
        bounds.wf(),
    ensures
        bounds.begin == bounds.end ==> steps_through(bounds, h).len() == 0,
        bounds.begin != bounds.end ==> ends_in_single_last(steps_through(bounds, h)),
{
    if bounds.begin != bounds.end {
        lemma_simpson_steps(bounds.begin as int, bounds.end as int, h as int);
    }
}

/// Step `i` starts `2 * h * i` after the begin of the bounds and before
/// their end, and the steps are as many as panels of width `2 * h` are needed
/// to cover the bounds.
pub proof fn lemma_stepping_covers_the_bounds(bounds: Bounds, h: i128)
    requires
        h > 0,
        bounds.wf(),
    ensures
        forall|i: int|
            0 <= i < steps_through(bounds, h).len() ==> (#[trigger] steps_through(
                bounds,
                h,
            )[i]).value() == bounds.begin + 2 * h * i,
        forall|i: int|
            0 <= i < steps_through(bounds, h).len() ==> (#[trigger] steps_through(
                bounds,
                h,
            )[i]).value() < bounds.end,
        2 * h * (steps_through(bounds, h).len() - 1) < bounds.end - bounds.begin
            || bounds.begin == bounds.end,
        bounds.end - bounds.begin <= 2 * h * steps_through(bounds, h).len(),
{
    if bounds.begin != bounds.end {
        lemma_simpson_steps(bounds.begin as int, bounds.end as int, h as int);
        lemma_simpson_step_positions(bounds.begin as int, bounds.end as int, h as int);
    } else {
        assert(2 * h * 0 == 0) by (nonlinear_arith);
    }
}

} // verus!

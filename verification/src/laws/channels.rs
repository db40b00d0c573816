//! The two channels of the accumulator are written by different panels.
use vstd::prelude::*;

use crate::engine::helper_equation_traits::ModelOfOneVariable;
use crate::engine::integrators::utils::accumulated;
use crate::engine::quadrature::simpson::SimpsonModelOfOne;
use crate::engine::range_generator::ends_in_single_last;
use crate::engine::{Bounds, CalculationResult, CalculationStep};

verus! {

/// An ordinary panel writes the common channel only, the last panel the last
/// channel only.
pub proof fn lemma_panel_writes_one_channel(
    model: SimpsonModelOfOne,
    step: CalculationStep,
    bounds: Bounds,
)
    ensures
        model.contribution(step, bounds) matches Ok(contribution) ==> if step is Last {
            contribution.common == 0
        } else {
            contribution.last == 0
        },
{
}

/// In an integral of one variable the last channel is written once, by the
/// final panel: after all panels it holds what it held before plus the
/// directed contribution of that panel.
pub proof fn lemma_last_channel_written_once(
    model: SimpsonModelOfOne,
    steps: Seq<CalculationStep>,
    bounds: Bounds,
    direction: i128,
    sum: CalculationResult,
)
    requires
        ends_in_single_last(steps),
    ensures
        accumulated(model, steps, bounds, direction, sum) matches Ok(total) ==> {
            &&& model.contribution(steps[steps.len() - 1], bounds) matches Ok(last)
            &&& total.last == sum.last + last.last * direction
        },
    decreases steps.len(),
{
    lemma_panel_writes_one_channel(model, steps[0], bounds);
    let rest = steps.skip(1);
    match model.contribution(steps[0], bounds) {
        Err(e) => {},
        Ok(contribution) => {
            match contribution.scaled(direction) {
                Err(e) => {},
                Ok(directed) => {
                    match sum.plus(directed) {
                        Err(e) => {},
                        Ok(next) => {
                            if steps.len() == 1 {
                                assert(accumulated(model, rest, bounds, direction, next) == Ok::<
                                    CalculationResult,
                                    crate::errors::Error,
                                >(next));
                            } else {
                                assert(steps[0] is Common);
                                assert(contribution.last * direction == 0) by (nonlinear_arith)
                                    requires
                                        contribution.last == 0,
                                ;
                                assert(rest[rest.len() - 1] == steps[steps.len() - 1]);
                                assert forall|i: int| 0 <= i < rest.len() - 1 implies #[trigger] rest[i] is Common by {
                                    assert(steps[i + 1] is Common);
                                }
                                lemma_last_channel_written_once(
                                    model,
                                    rest,
                                    bounds,
                                    direction,
                                    next,
                                );
                            }
                        },
                    }
                },
            }
        },
    }
}

} // verus!

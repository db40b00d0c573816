//! Producers of the steps of a range.
use vstd::prelude::*;

use crate::engine::CalculationStep;
use crate::errors::Error;

verus! {

/// The shape of every stepped range: at least one step, the final one marked
/// as last and no other.
pub open spec fn ends_in_single_last(steps: Seq<CalculationStep>) -> bool {
    &&& steps.len() > 0
    &&& steps[steps.len() - 1] is Last
    &&& forall|i: int| 0 <= i < steps.len() - 1 ==> #[trigger] steps[i] is Common
}

/// A cursor over a range that hands out one step per call.
pub trait RangeGenerator {
    /// The generator is in a state that its constructor or `next` left it in.
    spec fn wf(&self) -> bool;

    /// The steps that are still to come, in order.
    spec fn pending(&self) -> Seq<CalculationStep>;

    /// Hands out the first pending step, or fails when none is pending.
    fn next(&mut self) -> (r: Result<CalculationStep, Error>)
        requires
            old(self).wf(),
        ensures
            final(self).wf(),
            old(self).pending().len() > 0 ==> r == Ok::<CalculationStep, Error>(
                old(self).pending()[0],
            ) && final(self).pending() == old(self).pending().skip(1),
            old(self).pending().len() == 0 ==> r is Err && final(self).pending().len() == 0,
    ;
}

} // verus!

//! The three sample points of a panel.
use vstd::prelude::*;

use crate::engine::arithmetic::{
    bounded,
    checked_difference,
    checked_quotient,
    checked_sum,
    quotient,
};
use crate::engine::{Bounds, CalculationStep};
use crate::errors::Error;

verus! {

/// The sample points `v0`, `v1`, `v2` of a panel and its half-step `h`.
#[derive(Debug, Copy, Clone, PartialEq, Eq, Structural)]
pub struct SimpsonPoints {
    pub v0: i128,
    pub v1: i128,
    pub v2: i128,
    pub h: i128,
}

impl SimpsonPoints {
    /// The points of the panel that starts at `step`.
    ///
    /// An ordinary panel is `step_size` wide on each side of its midpoint. The
    /// last panel of a range reaches exactly to the end of `bounds`: its
    /// half-step is half of what remains, rounded toward zero, and its midpoint
    /// lies that far after its start.
    pub open spec fn points(step: CalculationStep, bounds: Bounds, step_size: i128) -> Result<
        SimpsonPoints,
        Error,
    > {
        let v0 = step.value();
        if step is Last {
            let v2 = bounds.end;
            match bounded(v2 - v0) {
                Err(e) => Err(e),
                Ok(width) => {
                    let h = quotient(width as int, 2) as i128;
                    match bounded(v0 + h) {
                        Err(e) => Err(e),
                        Ok(v1) => Ok(SimpsonPoints { v0, v1, v2, h }),
                    }
                },
            }
        } else {
            match bounded(v0 + step_size) {
                Err(e) => Err(e),
                Ok(v1) => match bounded(v1 + step_size) {
                    Err(e) => Err(e),
                    Ok(v2) => Ok(SimpsonPoints { v0, v1, v2, h: step_size }),
                },
            }
        }
    }

    /// Computes the points of the panel that starts at `step`, and raises
    /// `is_last_step` when the step is the last of its range.
    pub fn generate(
        step: CalculationStep,
        bounds: Bounds,
        step_size: i128,
        is_last_step: &mut bool,
    ) -> (r: Result<Self, Error>)
        ensures
            r == Self::points(step, bounds, step_size),
            *final(is_last_step) == (*old(is_last_step) || step is Last),
    {
        let v0: i128 = *step.deref();
        if step.is_last() {
            *is_last_step = true;
            let v2: i128 = bounds.end;
            let width: i128 = checked_difference(v2, v0)?;
            let h: i128 = checked_quotient(width, 2)?;
            let v1: i128 = checked_sum(v0, h)?;
            Ok(Self { v0, v1, v2, h })
        } else {
            let v1: i128 = checked_sum(v0, step_size)?;
            let v2: i128 = checked_sum(v1, step_size)?;
            Ok(Self { v0, v1, v2, h: step_size })
        }
    }
}

} // verus!

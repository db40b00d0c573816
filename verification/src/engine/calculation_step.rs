//! One sample position along a stepped range.
use vstd::prelude::*;

verus! {

/// The start of a panel: an ordinary one, or the last one of its range.
#[derive(Debug, Copy, Clone, PartialEq, Eq, Structural)]
pub enum CalculationStep {
    Common(i128),
    Last(i128),
}

impl CalculationStep {
    /// The coordinate of the step.
    pub open spec fn value(&self) -> i128 {
        match self {
            CalculationStep::Common(value) => *value,
            CalculationStep::Last(value) => *value,
        }
    }

    /// The coordinate of the step.
    pub fn deref(&self) -> (r: &i128)
        ensures
            *r == self.value(),
    {
        match self {
            CalculationStep::Common(value) => value,
            CalculationStep::Last(value) => value,
        }
    }

    /// Whether this is the last step of its range.
    pub fn is_last(&self) -> (r: bool)
        ensures
            r == (self is Last),
    {
        match self {
            CalculationStep::Last(_) => true,
            _ => false,
        }
    }
}

} // verus!

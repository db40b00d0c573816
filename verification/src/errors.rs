//! The ways in which an integration can fail.
use vstd::prelude::*;

verus! {

/// Why an integration stopped without a value.
#[derive(Debug, Clone, Copy, PartialEq, Eq, Structural)]
pub enum Error {
    /// A range generator was asked for a step although its position had
    /// already reached its end.
    RangeGeneratorOutOfBounds { step: i128, end: i128 },
    /// Bounds were built from a begin that lies after the end.
    BeginBoundGreaterThanEndBound { begin: i128, end: i128 },
    /// An integrand or a bound has more than one value at the sample.
    EquationWithMultipleResult,
    /// An integrand or a bound has no value at the sample.
    EquationWithoutResult,
    /// A number left the range `-i128::MAX ..= i128::MAX`.
    Overflow,
}

} // verus!

//! Quadrature rules: how a range is stepped, how wide the steps are, and how
//! an accumulated sum becomes the value of the integral.
use vstd::prelude::*;

use crate::engine::helper_equation_traits::{
    EquationOfOneVariable,
    EquationOfThreeVariable,
    EquationOfTwoVariable,
};
use crate::engine::range_generator::{ends_in_single_last, RangeGenerator};
use crate::engine::{Bounds, CalculationResult, CalculationStep};
use crate::errors::Error;

pub mod simpson;

verus! {

/// How a rule steps through a range.
pub trait GetQuadratureRange {
    /// The cursor that the rule steps with.
    type Generator: RangeGenerator;

    /// The steps through `bounds` with half-step `h`. There is none where the
    /// bounds span nothing.
    spec fn steps(bounds: Bounds, h: i128) -> Seq<CalculationStep>;

    /// A cursor over the steps through `bounds`, or none where the bounds span
    /// nothing. This never fails.
    fn get_range_generator(bounds: Bounds, h: i128) -> (r: Result<Option<Self::Generator>, Error>)
        requires
            bounds.wf(),
            h > 0,
        ensures
            match r {
                Ok(Some(generator)) => {
                    &&& bounds.begin != bounds.end
                    &&& generator.wf()
                    &&& generator.pending() == Self::steps(bounds, h)
                    &&& ends_in_single_last(Self::steps(bounds, h))
                },
                Ok(None) => bounds.begin == bounds.end && Self::steps(bounds, h).len() == 0,
                Err(_) => false,
            },
    ;
}

/// How a rule turns an accumulated sum into the value of the integral.
pub trait FinalizeCalculation {
    /// The value of the integral whose panels summed up to `result`.
    spec fn finalized(&self, result: CalculationResult) -> Result<i128, Error>;

    /// Computes the value of the integral whose panels summed up to `result`.
    fn finalize(&self, result: CalculationResult) -> (r: Result<i128, Error>)
        ensures
            r == self.finalized(result),
    ;
}

/// The half-step of a rule for one variable.
pub trait GetStepSizeSingleIntegral {
    spec fn step_size(&self) -> i128;

    fn get_step_size(&self) -> (r: i128)
        ensures
            r == self.step_size(),
    ;
}

/// A rule for integrands of one variable.
pub trait QuadratureSingleIntegral: GetQuadratureRange + FinalizeCalculation + GetStepSizeSingleIntegral + EquationOfOneVariable {

}

/// The half-steps of a rule for two variables.
pub trait GetStepSizeDoubleIntegral {
    spec fn step_size(&self) -> (i128, i128);

    fn get_step_size(&self) -> (r: (i128, i128))
        ensures
            r == self.step_size(),
    ;
}

/// A rule for integrands of two variables.
pub trait QuadratureDoubleIntegral: GetQuadratureRange + FinalizeCalculation + GetStepSizeDoubleIntegral + EquationOfTwoVariable {

}

/// The half-steps of a rule for three variables.
pub trait GetStepSizeTripleIntegral {
    spec fn step_size(&self) -> (i128, i128, i128);

    fn get_step_size(&self) -> (r: (i128, i128, i128))
        ensures
            r == self.step_size(),
    ;
}

/// A rule for integrands of three variables.
pub trait QuadratureTripleIntegral: GetQuadratureRange + FinalizeCalculation + GetStepSizeTripleIntegral + EquationOfThreeVariable {

}

} // verus!

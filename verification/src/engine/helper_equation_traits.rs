//! What an integrand of one, two or three free variables can do: give the
//! contribution of one panel.
//!
//! Each capability comes in two parts. The model is the integrand as
//! mathematics: a value that says what each panel contributes. The equation
//! is the integrand as code. An equation computes what every model that
//! describes it says.
use vstd::prelude::*;

use crate::engine::{Bounds, CalculationResult, CalculationStep};
use crate::errors::Error;

verus! {

/// The mathematics of an integrand of one free variable.
pub trait ModelOfOneVariable {
    /// What the panel that starts at `value` within `bounds` contributes.
    spec fn contribution(&self, value: CalculationStep, bounds: Bounds) -> Result<
        CalculationResult,
        Error,
    >;
}

/// The mathematics of an integrand of two free variables.
pub trait ModelOfTwoVariable {
    /// What the cell that starts at `value1` and `value2` contributes.
    spec fn contribution(
        &self,
        value1: CalculationStep,
        bounds1: Bounds,
        value2: CalculationStep,
        bounds2: Bounds,
    ) -> Result<CalculationResult, Error>;
}

/// The mathematics of an integrand of three free variables.
pub trait ModelOfThreeVariable {
    /// What the cell that starts at `value1`, `value2` and `value3` contributes.
    spec fn contribution(
        &self,
        value1: CalculationStep,
        bounds1: Bounds,
        value2: CalculationStep,
        bounds2: Bounds,
        value3: CalculationStep,
        bounds3: Bounds,
    ) -> Result<CalculationResult, Error>;
}

/// An integrand of one free variable.
pub trait EquationOfOneVariable {
    /// The mathematics of integrands of this kind.
    type Model: ModelOfOneVariable;

    /// The integrand can be evaluated.
    spec fn wf(&self) -> bool;

    /// Whatever the integrand computes is what `model` says.
    spec fn modelled_by(&self, model: Self::Model) -> bool;

    /// Computes what the panel that starts at `value` contributes.
    fn calculate(&self, value: CalculationStep, bounds: Bounds) -> (r: Result<
        CalculationResult,
        Error,
    >)
        requires
            self.wf(),
        ensures
            forall|model: Self::Model| #[trigger]
                self.modelled_by(model) ==> r == model.contribution(value, bounds),
    ;
}

/// An integrand of two free variables.
pub trait EquationOfTwoVariable {
    /// The mathematics of integrands of this kind.
    type Model: ModelOfTwoVariable;

    /// The integrand can be evaluated.
    spec fn wf(&self) -> bool;

    /// Whatever the integrand computes is what `model` says.
    spec fn modelled_by(&self, model: Self::Model) -> bool;

    /// Computes what the cell that starts at `value1` and `value2` contributes.
    fn calculate(
        &self,
        value1: CalculationStep,
        bounds1: Bounds,
        value2: CalculationStep,
        bounds2: Bounds,
    ) -> (r: Result<CalculationResult, Error>)
        requires
            self.wf(),
        ensures
            forall|model: Self::Model| #[trigger]
                self.modelled_by(model) ==> r == model.contribution(
                    value1,
                    bounds1,
                    value2,
                    bounds2,
                ),
    ;
}

/// An integrand of three free variables.
pub trait EquationOfThreeVariable {
    /// The mathematics of integrands of this kind.
    type Model: ModelOfThreeVariable;

    /// The integrand can be evaluated.
    spec fn wf(&self) -> bool;

    /// Whatever the integrand computes is what `model` says.
    spec fn modelled_by(&self, model: Self::Model) -> bool;

    /// Computes what the cell that starts at `value1`, `value2` and `value3`
    /// contributes.
    fn calculate(
        &self,
        value1: CalculationStep,
        bounds1: Bounds,
        value2: CalculationStep,
        bounds2: Bounds,
        value3: CalculationStep,
        bounds3: Bounds,
    ) -> (r: Result<CalculationResult, Error>)
        requires
            self.wf(),
        ensures
            forall|model: Self::Model| #[trigger]
                self.modelled_by(model) ==> r == model.contribution(
                    value1,
                    bounds1,
                    value2,
                    bounds2,
                    value3,
                    bounds3,
                ),
    ;
}

} // verus!

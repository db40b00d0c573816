//! The integrator of the second variable.
use core::marker::PhantomData;
use vstd::prelude::*;

use super::utils::{accumulate, accumulated, BoundsConfigurator, EquationAtFirst, ModelAtFirst};
use crate::engine::function_types::{describes_one, evaluate_one, is_function_of_one};
use crate::engine::helper_equation_traits::{
    EquationOfOneVariable,
    EquationOfTwoVariable,
    ModelOfOneVariable,
    ModelOfTwoVariable,
};
use crate::engine::quadrature::GetQuadratureRange;
use crate::engine::{Bounds, CalculationResult, CalculationStep};
use crate::errors::Error;

verus! {

/// The mathematics of an inner integral: a function of two variables, the
/// limits of its second variable as functions of the first, the half-step,
/// and the way ranges are stepped.
pub struct SecondIntegratorModel<M: ModelOfTwoVariable> {
    pub a_equation: spec_fn(i128) -> Result<i128, Error>,
    pub b_equation: spec_fn(i128) -> Result<i128, Error>,
    pub h: i128,
    pub steps: spec_fn(Bounds, i128) -> Seq<CalculationStep>,
    pub equation: M,
}

impl<M: ModelOfTwoVariable> ModelOfOneVariable for SecondIntegratorModel<M> {
    /// The inner integral at the outer panel `value`, not yet finalized: the
    /// limits are evaluated at the panel's start and brought into order, and
    /// the cells between them are summed, each multiplied by the direction.
    /// It is zero where the limits are equal.
    open spec fn contribution(&self, value: CalculationStep, bounds: Bounds) -> Result<
        CalculationResult,
        Error,
    > {
        match (self.a_equation)(value.value()) {
            Err(e) => Err(e),
            Ok(a) => match (self.b_equation)(value.value()) {
                Err(e) => Err(e),
                Ok(b) => {
                    let config = BoundsConfigurator::configuration(a, b);
                    accumulated(
                        ModelAtFirst { equation: self.equation, value, bounds },
                        (self.steps)(config.bounds, self.h),
                        config.bounds,
                        config.direction_coeff,
                        CalculationResult::zero(),
                    )
                },
            },
        }
    }
}

/// An integrand of two variables, integrated over its second variable between
/// limits that depend on the first.
pub struct SecondIntegrator<
    'a,
    G: GetQuadratureRange,
    E: EquationOfTwoVariable,
    F1: Fn(i128) -> Result<i128, Error>,
    F2: Fn(i128) -> Result<i128, Error>,
> {
    pub a_equation: F1,
    pub b_equation: F2,
    pub h: i128,
    pub equation: &'a E,
    pub _p: PhantomData<G>,
}

impl<
    'a,
    G: GetQuadratureRange,
    E: EquationOfTwoVariable,
    F1: Fn(i128) -> Result<i128, Error>,
    F2: Fn(i128) -> Result<i128, Error>,
> SecondIntegrator<'a, G, E, F1, F2> {
    /// The integrator of `equation` over its second variable from
    /// `a_equation` to `b_equation` with half-step `h`. This never fails.
    pub fn new(a_equation: F1, b_equation: F2, h: i128, equation: &'a E) -> (r: Result<
        Self,
        Error,
    >)
        ensures
            r matches Ok(integrator) && integrator.a_equation == a_equation
                && integrator.b_equation == b_equation && integrator.h == h
                && integrator.equation == equation,
    {
        Ok(Self { a_equation, b_equation, h, equation, _p: PhantomData })
    }
}

impl<
    'a,
    G: GetQuadratureRange,
    E: EquationOfTwoVariable,
    F1: Fn(i128) -> Result<i128, Error>,
    F2: Fn(i128) -> Result<i128, Error>,
> EquationOfOneVariable for SecondIntegrator<'a, G, E, F1, F2> {
    type Model = SecondIntegratorModel<E::Model>;

    open spec fn wf(&self) -> bool {
        &&& is_function_of_one(self.a_equation)
        &&& is_function_of_one(self.b_equation)
        &&& self.h > 0
        &&& self.equation.wf()
    }

    open spec fn modelled_by(&self, model: Self::Model) -> bool {
        &&& describes_one(self.a_equation, model.a_equation)
        &&& describes_one(self.b_equation, model.b_equation)
        &&& model.h == self.h
        &&& forall|bounds: Bounds, h: i128| #[trigger]
            (model.steps)(bounds, h) == G::steps(bounds, h)
        &&& self.equation.modelled_by(model.equation)
    }

    fn calculate(&self, x: CalculationStep, bounds: Bounds) -> (r: Result<
        CalculationResult,
        Error,
    >) {
        let a: i128 = evaluate_one(&self.a_equation, *x.deref())?;
        let b: i128 = evaluate_one(&self.b_equation, *x.deref())?;
        let borders_config = BoundsConfigurator::configurate(a, b)?;

        let range = match G::get_range_generator(borders_config.bounds, self.h)? {
            Some(range) => range,
            None => {
                return Ok(CalculationResult::new());
            },
        };

        let inner = EquationAtFirst { equation: self.equation, value: x, bounds };
        let r = accumulate(&inner, range, borders_config.bounds, borders_config.direction_coeff);
        assert forall|model: Self::Model| #[trigger] self.modelled_by(model) implies r
            == model.contribution(x, bounds) by {
            let held = ModelAtFirst { equation: model.equation, value: x, bounds };
            assert(inner.modelled_by(held));
            assert((model.steps)(borders_config.bounds, self.h) == G::steps(
                borders_config.bounds,
                self.h,
            ));
        }
        r
    }
}

} // verus!

//! The integrator of the third variable.
use core::marker::PhantomData;
use vstd::prelude::*;

use super::utils::{
    accumulate,
    accumulated,
    BoundsConfigurator,
    EquationAtFirstTwo,
    ModelAtFirstTwo,
};
use crate::engine::function_types::{describes_two, evaluate_two, is_function_of_two};
use crate::engine::helper_equation_traits::{
    EquationOfOneVariable,
    EquationOfThreeVariable,
    EquationOfTwoVariable,
    ModelOfThreeVariable,
    ModelOfTwoVariable,
};
use crate::engine::quadrature::GetQuadratureRange;
use crate::engine::{Bounds, CalculationResult, CalculationStep};
use crate::errors::Error;

verus! {

/// The mathematics of an innermost integral: a function of three variables,
/// the limits of its third variable as functions of the first two, the
/// half-step, and the way ranges are stepped.
pub struct ThirdIntegratorModel<M: ModelOfThreeVariable> {
    pub a_equation: spec_fn(i128, i128) -> Result<i128, Error>,
    pub b_equation: spec_fn(i128, i128) -> Result<i128, Error>,
    pub h: i128,
    pub steps: spec_fn(Bounds, i128) -> Seq<CalculationStep>,
    pub equation: M,
}

impl<M: ModelOfThreeVariable> ModelOfTwoVariable for ThirdIntegratorModel<M> {
    /// The innermost integral at the outer panels `value1` and `value2`, not
    /// yet finalized: the limits are evaluated at the panels' starts and
    /// brought into order, and the cells between them are summed, each
    /// multiplied by the direction. It is zero where the limits are equal.
    open spec fn contribution(
        &self,
        value1: CalculationStep,
        bounds1: Bounds,
        value2: CalculationStep,
        bounds2: Bounds,
    ) -> Result<CalculationResult, Error> {
        match (self.a_equation)(value1.value(), value2.value()) {
            Err(e) => Err(e),
            Ok(a) => match (self.b_equation)(value1.value(), value2.value()) {
                Err(e) => Err(e),
                Ok(b) => {
                    let config = BoundsConfigurator::configuration(a, b);
                    accumulated(
                        ModelAtFirstTwo {
                            equation: self.equation,
                            value1,
                            bounds1,
                            value2,
                            bounds2,
                        },
                        (self.steps)(config.bounds, self.h),
                        config.bounds,
                        config.direction_coeff,
                        CalculationResult::zero(),
                    )
                },
            },
        }
    }
}

/// An integrand of three variables, integrated over its third variable
/// between limits that depend on the first two.
pub struct ThirdIntegrator<
    'a,
    G: GetQuadratureRange,
    E: EquationOfThreeVariable,
    F1: Fn(i128, i128) -> Result<i128, Error>,
    F2: Fn(i128, i128) -> Result<i128, Error>,
> {
    pub a_equation: F1,
    pub b_equation: F2,
    pub h: i128,
    pub equation: &'a E,
    pub _p: PhantomData<G>,
}

impl<
    'a,
    G: GetQuadratureRange,
    E: EquationOfThreeVariable,
    F1: Fn(i128, i128) -> Result<i128, Error>,
    F2: Fn(i128, i128) -> Result<i128, Error>,
> ThirdIntegrator<'a, G, E, F1, F2> {
    /// The integrator of `equation` over its third variable from
    /// `a_equation` to `b_equation` with half-step `h`. This never fails.
    pub fn new(a_equation: F1, b_equation: F2, h: i128, equation: &'a E) -> (r: Result<
        Self,
        Error,
    >)
        ensures
            r matches Ok(integrator) && integrator.a_equation == a_equation
                && integrator.b_equation == b_equation && integrator.h == h
                && integrator.equation == equation,
    {
        Ok(Self { a_equation, b_equation, h, equation, _p: PhantomData })
    }
}

impl<
    'a,
    G: GetQuadratureRange,
    E: EquationOfThreeVariable,
    F1: Fn(i128, i128) -> Result<i128, Error>,
    F2: Fn(i128, i128) -> Result<i128, Error>,
> EquationOfTwoVariable for ThirdIntegrator<'a, G, E, F1, F2> {
    type Model = ThirdIntegratorModel<E::Model>;

    open spec fn wf(&self) -> bool {
        &&& is_function_of_two(self.a_equation)
        &&& is_function_of_two(self.b_equation)
        &&& self.h > 0
        &&& self.equation.wf()
    }

    open spec fn modelled_by(&self, model: Self::Model) -> bool {
        &&& describes_two(self.a_equation, model.a_equation)
        &&& describes_two(self.b_equation, model.b_equation)
        &&& model.h == self.h
        &&& forall|bounds: Bounds, h: i128| #[trigger]
            (model.steps)(bounds, h) == G::steps(bounds, h)
        &&& self.equation.modelled_by(model.equation)
    }

    fn calculate(
        &self,
        x: CalculationStep,
        bounds_x: Bounds,
        y: CalculationStep,
        bounds_y: Bounds,
    ) -> (r: Result<CalculationResult, Error>) {
        let a: i128 = evaluate_two(&self.a_equation, *x.deref(), *y.deref())?;
        let b: i128 = evaluate_two(&self.b_equation, *x.deref(), *y.deref())?;
        let borders_config = BoundsConfigurator::configurate(a, b)?;

        let range = match G::get_range_generator(borders_config.bounds, self.h)? {
            Some(range) => range,
            None => {
                return Ok(CalculationResult::new());
            },
        };

        let inner = EquationAtFirstTwo {
            equation: self.equation,
            value1: x,
            bounds1: bounds_x,
            value2: y,
            bounds2: bounds_y,
        };
        let r = accumulate(&inner, range, borders_config.bounds, borders_config.direction_coeff);
        assert forall|model: Self::Model| #[trigger] self.modelled_by(model) implies r
            == model.contribution(x, bounds_x, y, bounds_y) by {
            let held = ModelAtFirstTwo {
                equation: model.equation,
                value1: x,
                bounds1: bounds_x,
                value2: y,
                bounds2: bounds_y,
            };
            assert(EquationOfOneVariable::modelled_by(&inner, held));
            assert((model.steps)(borders_config.bounds, self.h) == G::steps(
                borders_config.bounds,
                self.h,
            ));
        }
        r
    }
}

} // verus!

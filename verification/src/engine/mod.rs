//! The integration engine: numbers, steps, accumulators, quadratures and
//! integrators, and the three compositions of them.
use vstd::prelude::*;

pub mod arithmetic;
mod bounds;
mod calculation_result;
mod calculation_step;
pub mod function_types;
pub mod helper_equation_traits;
pub mod integrators;
pub mod quadrature;
pub mod range_generator;

pub use bounds::Bounds;
pub use calculation_result::CalculationResult;
pub use calculation_step::CalculationStep;

use crate::errors::Error;
use function_types::{is_function_of_one, is_function_of_two};
use helper_equation_traits::{EquationOfOneVariable, EquationOfThreeVariable, EquationOfTwoVariable};
use integrators::{
    FirstIntegrator,
    SecondIntegrator,
    SecondIntegratorModel,
    ThirdIntegrator,
    ThirdIntegratorModel,
};
use quadrature::{
    GetStepSizeDoubleIntegral,
    GetStepSizeSingleIntegral,
    GetStepSizeTripleIntegral,
    QuadratureDoubleIntegral,
    QuadratureSingleIntegral,
    QuadratureTripleIntegral,
};

verus! {

/// Integrates the rule's integrand from `first_integral_begin` to
/// `first_integral_end`.
pub fn calculate_single_integral<Q: QuadratureSingleIntegral>(
    quadrature: Q,
    first_integral_begin: i128,
    first_integral_end: i128,
) -> (r: Result<i128, Error>)
    requires
        EquationOfOneVariable::wf(&quadrature),
        GetStepSizeSingleIntegral::step_size(&quadrature) > 0,
    ensures
        forall|model: <Q as EquationOfOneVariable>::Model| #[trigger]
            EquationOfOneVariable::modelled_by(&quadrature, model) ==> r
                == FirstIntegrator::integral::<<Q as EquationOfOneVariable>::Model, Q>(
                first_integral_begin,
                first_integral_end,
                GetStepSizeSingleIntegral::step_size(&quadrature),
                model,
                &quadrature,
            ),
{
    FirstIntegrator::integrate::<Q, Q>(
        first_integral_begin,
        first_integral_end,
        quadrature.get_step_size(),
        &quadrature,
        &quadrature,
    )
}

/// The integrator of the second variable that a double integral runs at
/// each sample of the first.
pub open spec fn second_integrator<
    'a,
    Q: QuadratureDoubleIntegral,
    F1: Fn(i128) -> Result<i128, Error>,
    F2: Fn(i128) -> Result<i128, Error>,
>(quadrature: &'a Q, second_integral_begin: F1, second_integral_end: F2) -> SecondIntegrator<
    'a,
    Q,
    Q,
    F1,
    F2,
> {
    SecondIntegrator {
        a_equation: second_integral_begin,
        b_equation: second_integral_end,
        h: GetStepSizeDoubleIntegral::step_size(quadrature).1,
        equation: quadrature,
        _p: core::marker::PhantomData,
    }
}

/// Integrates the rule's integrand over the first variable between two
/// numbers and over the second between two functions of the first.
pub fn calculate_double_integral<
    Q: QuadratureDoubleIntegral,
    F1: Fn(i128) -> Result<i128, Error>,
    F2: Fn(i128) -> Result<i128, Error>,
>(
    quadrature: Q,
    first_integral_begin: i128,
    first_integral_end: i128,
    second_integral_begin: F1,
    second_integral_end: F2,
) -> (r: Result<i128, Error>)
    requires
        EquationOfTwoVariable::wf(&quadrature),
        GetStepSizeDoubleIntegral::step_size(&quadrature).0 > 0,
        GetStepSizeDoubleIntegral::step_size(&quadrature).1 > 0,
        is_function_of_one(second_integral_begin),
        is_function_of_one(second_integral_end),
    ensures
        forall|model: SecondIntegratorModel<<Q as EquationOfTwoVariable>::Model>| #[trigger]
            EquationOfOneVariable::modelled_by(
                &second_integrator(&quadrature, second_integral_begin, second_integral_end),
                model,
            ) ==> r == FirstIntegrator::integral::<
                SecondIntegratorModel<<Q as EquationOfTwoVariable>::Model>,
                Q,
            >(
                first_integral_begin,
                first_integral_end,
                GetStepSizeDoubleIntegral::step_size(&quadrature).0,
                model,
                &quadrature,
            ),
{
    let second_integrator = SecondIntegrator::<Q, Q, F1, F2>::new(
        second_integral_begin,
        second_integral_end,
        quadrature.get_step_size().1,
        &quadrature,
    )?;

    FirstIntegrator::integrate::<SecondIntegrator<Q, Q, F1, F2>, Q>(
        first_integral_begin,
        first_integral_end,
        quadrature.get_step_size().0,
        &second_integrator,
        &quadrature,
    )
}

/// The integrator of the third variable that a triple integral runs at
/// each sample of the first two.
pub open spec fn third_integrator<
    'a,
    Q: QuadratureTripleIntegral,
    F3: Fn(i128, i128) -> Result<i128, Error>,
    F4: Fn(i128, i128) -> Result<i128, Error>,
>(quadrature: &'a Q, third_integral_begin: F3, third_integral_end: F4) -> ThirdIntegrator<
    'a,
    Q,
    Q,
    F3,
    F4,
> {
    ThirdIntegrator {
        a_equation: third_integral_begin,
        b_equation: third_integral_end,
        h: GetStepSizeTripleIntegral::step_size(quadrature).2,
        equation: quadrature,
        _p: core::marker::PhantomData,
    }
}

/// The integrator of the second variable that a triple integral runs at
/// each sample of the first, over the integrator of the third.
pub open spec fn second_of_third_integrator<
    'a,
    Q: QuadratureTripleIntegral,
    F1: Fn(i128) -> Result<i128, Error>,
    F2: Fn(i128) -> Result<i128, Error>,
    F3: Fn(i128, i128) -> Result<i128, Error>,
    F4: Fn(i128, i128) -> Result<i128, Error>,
>(
    quadrature: &'a Q,
    second_integral_begin: F1,
    second_integral_end: F2,
    third: &'a ThirdIntegrator<'a, Q, Q, F3, F4>,
) -> SecondIntegrator<'a, Q, ThirdIntegrator<'a, Q, Q, F3, F4>, F1, F2> {
    SecondIntegrator {
        a_equation: second_integral_begin,
        b_equation: second_integral_end,
        h: GetStepSizeTripleIntegral::step_size(quadrature).1,
        equation: third,
        _p: core::marker::PhantomData,
    }
}

/// Integrates the rule's integrand over the first variable between two
/// numbers, over the second between two functions of the first, and over the
/// third between two functions of the first two.
pub fn calculate_triple_integral<
    Q: QuadratureTripleIntegral,
    F1: Fn(i128) -> Result<i128, Error>,
    F2: Fn(i128) -> Result<i128, Error>,
    F3: Fn(i128, i128) -> Result<i128, Error>,
    F4: Fn(i128, i128) -> Result<i128, Error>,
>(
    quadrature: Q,
    first_integral_begin: i128,
    first_integral_end: i128,
    second_integral_begin: F1,
    second_integral_end: F2,
    third_integral_begin: F3,
    third_integral_end: F4,
) -> (r: Result<i128, Error>)
    requires
        EquationOfThreeVariable::wf(&quadrature),
        GetStepSizeTripleIntegral::step_size(&quadrature).0 > 0,
        GetStepSizeTripleIntegral::step_size(&quadrature).1 > 0,
        GetStepSizeTripleIntegral::step_size(&quadrature).2 > 0,
        is_function_of_one(second_integral_begin),
        is_function_of_one(second_integral_end),
        is_function_of_two(third_integral_begin),
        is_function_of_two(third_integral_end),
    ensures
        forall|
            model: SecondIntegratorModel<
                ThirdIntegratorModel<<Q as EquationOfThreeVariable>::Model>,
            >,
        | #[trigger]
            EquationOfOneVariable::modelled_by(
                &second_of_third_integrator(
                    &quadrature,
                    second_integral_begin,
                    second_integral_end,
                    &third_integrator(&quadrature, third_integral_begin, third_integral_end),
                ),
                model,
            ) ==> r == FirstIntegrator::integral::<
                SecondIntegratorModel<ThirdIntegratorModel<<Q as EquationOfThreeVariable>::Model>>,
                Q,
            >(
                first_integral_begin,
                first_integral_end,
                GetStepSizeTripleIntegral::step_size(&quadrature).0,
                model,
                &quadrature,
            ),
{
    let third_integrator = ThirdIntegrator::<Q, Q, F3, F4>::new(
        third_integral_begin,
        third_integral_end,
        quadrature.get_step_size().2,
        &quadrature,
    )?;

    let second_integrator = SecondIntegrator::<Q, ThirdIntegrator<Q, Q, F3, F4>, F1, F2>::new(
        second_integral_begin,
        second_integral_end,
        quadrature.get_step_size().1,
        &third_integrator,
    )?;

    FirstIntegrator::integrate::<SecondIntegrator<Q, ThirdIntegrator<Q, Q, F3, F4>, F1, F2>, Q>(
        first_integral_begin,
        first_integral_end,
        quadrature.get_step_size().0,
        &second_integrator,
        &quadrature,
    )
}

} // verus!

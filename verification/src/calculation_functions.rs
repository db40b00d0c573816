//! The three entry points: an integrand, the limits and half-step of each
//! variable in, the value of the integral out.
use vstd::prelude::*;

use crate::engine::function_types::{
    describes_one,
    describes_three,
    describes_two,
    is_function_of_one,
    is_function_of_three,
    is_function_of_two,
};
use crate::engine::helper_equation_traits::{EquationOfOneVariable, EquationOfTwoVariable};
use crate::engine::integrators::utils::{accumulated, BoundsConfigurator};
use crate::engine::integrators::{SecondIntegratorModel, ThirdIntegratorModel};
use crate::engine::quadrature::simpson::{
    steps_through,
    SimpsonModelOfOne,
    SimpsonModelOfThree,
    SimpsonModelOfTwo,
    SimpsonQuadratureDoubleIntegral,
    SimpsonQuadratureSingleIntegral,
    SimpsonQuadratureTripleIntegral,
};
use crate::engine::{
    calculate_double_integral,
    calculate_single_integral,
    calculate_triple_integral,
    second_integrator,
    second_of_third_integrator,
    third_integrator,
    Bounds,
    CalculationResult,
    CalculationStep,
};
use crate::errors::Error;

verus! {

/// How the Simpson rule steps through a range.
pub open spec fn simpson_stepping() -> spec_fn(Bounds, i128) -> Seq<CalculationStep> {
    |bounds: Bounds, h: i128| steps_through(bounds, h)
}

/// The Simpson integral of `equation` from `first_integral_begin` to
/// `first_integral_end` with half-step `first_integral_step`.
///
/// It is zero where the limits are equal. Otherwise the panels between the
/// ordered limits are summed, in the direction the limits came in: the
/// ordinary panels into the common channel, which the constant of the
/// half-step is applied to at the end, the last panel into the last channel.
pub open spec fn single_integral_simpson(
    equation: spec_fn(i128) -> Result<i128, Error>,
    first_integral_begin: i128,
    first_integral_end: i128,
    first_integral_step: i128,
) -> Result<i128, Error> {
    let rule = SimpsonModelOfOne { equation, h: first_integral_step };
    let config = BoundsConfigurator::configuration(first_integral_begin, first_integral_end);
    let steps = steps_through(config.bounds, first_integral_step);
    if steps.len() == 0 {
        Ok(0)
    } else {
        match accumulated(
            rule,
            steps,
            config.bounds,
            config.direction_coeff,
            CalculationResult::zero(),
        ) {
            Err(e) => Err(e),
            Ok(sum) => rule.finalized(sum),
        }
    }
}

/// The inner integral of a double integral, as a function of the first
/// variable.
pub open spec fn inner_of_double(
    equation: spec_fn(i128, i128) -> Result<i128, Error>,
    first_integral_step: i128,
    second_integral_begin: spec_fn(i128) -> Result<i128, Error>,
    second_integral_end: spec_fn(i128) -> Result<i128, Error>,
    second_integral_step: i128,
) -> SecondIntegratorModel<SimpsonModelOfTwo> {
    SecondIntegratorModel {
        a_equation: second_integral_begin,
        b_equation: second_integral_end,
        h: second_integral_step,
        steps: simpson_stepping(),
        equation: SimpsonModelOfTwo {
            equation,
            h: first_integral_step,
            k: second_integral_step,
        },
    }
}

/// The Simpson integral of `equation` over the first variable between two
/// numbers and over the second between two functions of the first.
///
/// It is zero where the outer limits are equal. Otherwise the inner
/// integrals at the panels between the ordered outer limits are summed, in
/// the direction the limits came in, and the constant of both half-steps is
/// applied to the common channel at the end.
pub open spec fn double_integral_simpson(
    equation: spec_fn(i128, i128) -> Result<i128, Error>,
    first_integral_begin: i128,
    first_integral_end: i128,
    first_integral_step: i128,
    second_integral_begin: spec_fn(i128) -> Result<i128, Error>,
    second_integral_end: spec_fn(i128) -> Result<i128, Error>,
    second_integral_step: i128,
) -> Result<i128, Error> {
    let inner = inner_of_double(
        equation,
        first_integral_step,
        second_integral_begin,
        second_integral_end,
        second_integral_step,
    );
    let config = BoundsConfigurator::configuration(first_integral_begin, first_integral_end);
    let steps = steps_through(config.bounds, first_integral_step);
    if steps.len() == 0 {
        Ok(0)
    } else {
        match accumulated(
            inner,
            steps,
            config.bounds,
            config.direction_coeff,
            CalculationResult::zero(),
        ) {
            Err(e) => Err(e),
            Ok(sum) => inner.equation.finalized(sum),
        }
    }
}

/// The two inner integrals of a triple integral, as a function of the first
/// variable.
pub open spec fn inner_of_triple(
    equation: spec_fn(i128, i128, i128) -> Result<i128, Error>,
    first_integral_step: i128,
    second_integral_begin: spec_fn(i128) -> Result<i128, Error>,
    second_integral_end: spec_fn(i128) -> Result<i128, Error>,
    second_integral_step: i128,
    third_integral_begin: spec_fn(i128, i128) -> Result<i128, Error>,
    third_integral_end: spec_fn(i128, i128) -> Result<i128, Error>,
    third_integral_step: i128,
) -> SecondIntegratorModel<ThirdIntegratorModel<SimpsonModelOfThree>> {
    SecondIntegratorModel {
        a_equation: second_integral_begin,
        b_equation: second_integral_end,
        h: second_integral_step,
        steps: simpson_stepping(),
        equation: ThirdIntegratorModel {
            a_equation: third_integral_begin,
            b_equation: third_integral_end,
            h: third_integral_step,
            steps: simpson_stepping(),
            equation: SimpsonModelOfThree {
                equation,
                h: first_integral_step,
                k: second_integral_step,
                l: third_integral_step,
            },
        },
    }
}

/// The Simpson integral of `equation` over the first variable between two
/// numbers, over the second between two functions of the first, and over the
/// third between two functions of the first two.
///
/// It is zero where the outer limits are equal. Otherwise the inner
/// integrals at the panels between the ordered outer limits are summed, in
/// the direction the limits came in, and the constant of the three
/// half-steps is applied to the common channel at the end.
pub open spec fn triple_integral_simpson(
    equation: spec_fn(i128, i128, i128) -> Result<i128, Error>,
    first_integral_begin: i128,
    first_integral_end: i128,
    first_integral_step: i128,
    second_integral_begin: spec_fn(i128) -> Result<i128, Error>,
    second_integral_end: spec_fn(i128) -> Result<i128, Error>,
    second_integral_step: i128,
    third_integral_begin: spec_fn(i128, i128) -> Result<i128, Error>,
    third_integral_end: spec_fn(i128, i128) -> Result<i128, Error>,
    third_integral_step: i128,
) -> Result<i128, Error> {
    let inner = inner_of_triple(
        equation,
        first_integral_step,
        second_integral_begin,
        second_integral_end,
        second_integral_step,
        third_integral_begin,
        third_integral_end,
        third_integral_step,
    );
    let config = BoundsConfigurator::configuration(first_integral_begin, first_integral_end);
    let steps = steps_through(config.bounds, first_integral_step);
    if steps.len() == 0 {
        Ok(0)
    } else {
        match accumulated(
            inner,
            steps,
            config.bounds,
            config.direction_coeff,
            CalculationResult::zero(),
        ) {
            Err(e) => Err(e),
            Ok(sum) => inner.equation.equation.finalized(sum),
        }
    }
}

/// Integrates `equation` from `first_integral_begin` to `first_integral_end`
/// by the Simpson rule with half-step `first_integral_step`.
///
/// The limits may come in either order. The result counts grid ticks times
/// units of the integrand. Whatever function describes `equation`, the
/// result is the Simpson integral of that function.
pub fn calculate_single_integral_simpson<E: Fn(i128) -> Result<i128, Error>>(
    equation: E,
    first_integral_begin: i128,
    first_integral_end: i128,
    first_integral_step: i128,
) -> (r: Result<i128, Error>)
    requires
        first_integral_step > 0,
        is_function_of_one(equation),
    ensures
        forall|g: spec_fn(i128) -> Result<i128, Error>| #[trigger]
            describes_one(equation, g) ==> r == single_integral_simpson(
                g,
                first_integral_begin,
                first_integral_end,
                first_integral_step,
            ),
{
    let simpson_quadrature = SimpsonQuadratureSingleIntegral::new(equation, first_integral_step)?;
    let ghost quadrature = simpson_quadrature;

    let r = calculate_single_integral(simpson_quadrature, first_integral_begin, first_integral_end);
    assert forall|g: spec_fn(i128) -> Result<i128, Error>| #[trigger]
        describes_one(equation, g) implies r == single_integral_simpson(
        g,
        first_integral_begin,
        first_integral_end,
        first_integral_step,
    ) by {
        let rule = SimpsonModelOfOne { equation: g, h: first_integral_step };
        assert(quadrature.modelled_by(rule));
    }
    r
}

/// Integrates `equation` by the Simpson rule: over the first variable from
/// `first_integral_begin` to `first_integral_end`, and at each sample of the
/// first over the second variable from `second_integral_begin` to
/// `second_integral_end` there.
///
/// Limits may come in either order. The result counts grid ticks of the
/// first axis times grid ticks of the second times units of the integrand.
/// Whatever functions describe `equation` and the two limits, the result is
/// the Simpson integral of those functions.
pub fn calculate_double_integral_simpson<
    E: Fn(i128, i128) -> Result<i128, Error>,
    F1: Fn(i128) -> Result<i128, Error>,
    F2: Fn(i128) -> Result<i128, Error>,
>(
    equation: E,
    first_integral_begin: i128,
    first_integral_end: i128,
    first_integral_step: i128,
    second_integral_begin: F1,
    second_integral_end: F2,
    second_integral_step: i128,
) -> (r: Result<i128, Error>)
    requires
        first_integral_step > 0,
        second_integral_step > 0,
        is_function_of_two(equation),
        is_function_of_one(second_integral_begin),
        is_function_of_one(second_integral_end),
    ensures
        forall|
            g: spec_fn(i128, i128) -> Result<i128, Error>,
            a: spec_fn(i128) -> Result<i128, Error>,
            b: spec_fn(i128) -> Result<i128, Error>,
        |
            #![trigger describes_two(equation, g), describes_one(second_integral_begin, a), describes_one(second_integral_end, b)]
            describes_two(equation, g) && describes_one(second_integral_begin, a) && describes_one(
                second_integral_end,
                b,
            ) ==> r == double_integral_simpson(
                g,
                first_integral_begin,
                first_integral_end,
                first_integral_step,
                a,
                b,
                second_integral_step,
            ),
{
    let simpson_quadrature = SimpsonQuadratureDoubleIntegral::new(
        equation,
        first_integral_step,
        second_integral_step,
    )?;
    let ghost quadrature = simpson_quadrature;

    let r = calculate_double_integral(
        simpson_quadrature,
        first_integral_begin,
        first_integral_end,
        second_integral_begin,
        second_integral_end,
    );
    assert forall|
        g: spec_fn(i128, i128) -> Result<i128, Error>,
        a: spec_fn(i128) -> Result<i128, Error>,
        b: spec_fn(i128) -> Result<i128, Error>,
    |
        #![trigger describes_two(equation, g), describes_one(second_integral_begin, a), describes_one(second_integral_end, b)]
        describes_two(equation, g) && describes_one(second_integral_begin, a) && describes_one(
            second_integral_end,
            b,
        ) implies r == double_integral_simpson(
        g,
        first_integral_begin,
        first_integral_end,
        first_integral_step,
        a,
        b,
        second_integral_step,
    ) by {
        let inner = inner_of_double(g, first_integral_step, a, b, second_integral_step);
        assert(EquationOfOneVariable::modelled_by(
            &second_integrator(&quadrature, second_integral_begin, second_integral_end),
            inner,
        ));
    }
    r
}

/// Integrates `equation` by the Simpson rule: over the first variable from
/// `first_integral_begin` to `first_integral_end`, over the second between
/// limits that depend on the first, and over the third between limits that
/// depend on the first two.
///
/// Limits may come in either order. The result counts the product of the
/// grid ticks of the three axes times units of the integrand. Whatever
/// functions describe `equation` and the four limits, the result is the
/// Simpson integral of those functions.
pub fn calculate_triple_integral_simpson<
    E: Fn(i128, i128, i128) -> Result<i128, Error>,
    F1: Fn(i128) -> Result<i128, Error>,
    F2: Fn(i128) -> Result<i128, Error>,
    F3: Fn(i128, i128) -> Result<i128, Error>,
    F4: Fn(i128, i128) -> Result<i128, Error>,
>(
    equation: E,
    first_integral_begin: i128,
    first_integral_end: i128,
    first_integral_step: i128,
    second_integral_begin: F1,
    second_integral_end: F2,
    second_integral_step: i128,
    third_integral_begin: F3,
    third_integral_end: F4,
    third_integral_step: i128,
) -> (r: Result<i128, Error>)
    requires
        first_integral_step > 0,
        second_integral_step > 0,
        third_integral_step > 0,
        is_function_of_three(equation),
        is_function_of_one(second_integral_begin),
        is_function_of_one(second_integral_end),
        is_function_of_two(third_integral_begin),
        is_function_of_two(third_integral_end),
    ensures
        forall|
            g: spec_fn(i128, i128, i128) -> Result<i128, Error>,
            a: spec_fn(i128) -> Result<i128, Error>,
            b: spec_fn(i128) -> Result<i128, Error>,
            c: spec_fn(i128, i128) -> Result<i128, Error>,
            d: spec_fn(i128, i128) -> Result<i128, Error>,
        |
            #![trigger describes_three(equation, g), describes_one(second_integral_begin, a), describes_one(second_integral_end, b), describes_two(third_integral_begin, c), describes_two(third_integral_end, d)]
            describes_three(equation, g) && describes_one(second_integral_begin, a)
                && describes_one(second_integral_end, b) && describes_two(third_integral_begin, c)
                && describes_two(third_integral_end, d) ==> r == triple_integral_simpson(
                g,
                first_integral_begin,
                first_integral_end,
                first_integral_step,
                a,
                b,
                second_integral_step,
                c,
                d,
                third_integral_step,
            ),
{
    let simpson_quadrature = SimpsonQuadratureTripleIntegral::new(
        equation,
        first_integral_step,
        second_integral_step,
        third_integral_step,
    )?;
    let ghost quadrature = simpson_quadrature;

    let r = calculate_triple_integral(
        simpson_quadrature,
        first_integral_begin,
        first_integral_end,
        second_integral_begin,
        second_integral_end,
        third_integral_begin,
        third_integral_end,
    );
    assert forall|
        g: spec_fn(i128, i128, i128) -> Result<i128, Error>,
        a: spec_fn(i128) -> Result<i128, Error>,
        b: spec_fn(i128) -> Result<i128, Error>,
        c: spec_fn(i128, i128) -> Result<i128, Error>,
        d: spec_fn(i128, i128) -> Result<i128, Error>,
    |
        #![trigger describes_three(equation, g), describes_one(second_integral_begin, a), describes_one(second_integral_end, b), describes_two(third_integral_begin, c), describes_two(third_integral_end, d)]
        describes_three(equation, g) && describes_one(second_integral_begin, a) && describes_one(
            second_integral_end,
            b,
        ) && describes_two(third_integral_begin, c) && describes_two(
            third_integral_end,
            d,
        ) implies r == triple_integral_simpson(
        g,
        first_integral_begin,
        first_integral_end,
        first_integral_step,
        a,
        b,
        second_integral_step,
        c,
        d,
        third_integral_step,
    ) by {
        let inner = inner_of_triple(
            g,
            first_integral_step,
            a,
            b,
            second_integral_step,
            c,
            d,
            third_integral_step,
        );
        assert(EquationOfTwoVariable::modelled_by(
            &third_integrator(&quadrature, third_integral_begin, third_integral_end),
            inner.equation,
        ));
        assert(EquationOfOneVariable::modelled_by(
            &second_of_third_integrator(
                &quadrature,
                second_integral_begin,
                second_integral_end,
                &third_integrator(&quadrature, third_integral_begin, third_integral_end),
            ),
            inner,
        ));
    }
    r
}

} // verus!

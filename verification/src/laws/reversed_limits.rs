//! Exchanging the limits of a variable negates the integral.
use vstd::prelude::*;

use crate::calculation_functions::{
    double_integral_simpson,
    inner_of_double,
    inner_of_triple,
    single_integral_simpson,
    triple_integral_simpson,
};
use crate::engine::arithmetic::{in_range, lemma_quotient_odd};
use crate::engine::helper_equation_traits::{
    ModelOfOneVariable,
    ModelOfThreeVariable,
    ModelOfTwoVariable,
};
use crate::engine::integrators::utils::{
    accumulated,
    BoundsConfigurator,
    ModelAtFirst,
    ModelAtFirstTwo,
};
use crate::engine::integrators::{SecondIntegratorModel, ThirdIntegratorModel};
use crate::engine::quadrature::simpson::{
    steps_through,
    SimpsonModelOfOne,
    SimpsonModelOfThree,
    SimpsonModelOfTwo,
};
use crate::engine::{Bounds, CalculationResult, CalculationStep};
use crate::errors::Error;

verus! {

/// The outcome of an integration with its value negated; a failure stays as
/// it is.
pub open spec fn negated_outcome(outcome: Result<i128, Error>) -> Result<i128, Error> {
    match outcome {
        Ok(value) => Ok((-value) as i128),
        Err(e) => Err(e),
    }
}

/// The outcome of an accumulation with both channels negated; a failure stays
/// as it is.
pub open spec fn negated_sum(outcome: Result<CalculationResult, Error>) -> Result<
    CalculationResult,
    Error,
> {
    match outcome {
        Ok(sum) => Ok(sum.negated()),
        Err(e) => Err(e),
    }
}

/// Summing the same panels in the opposite direction from the negated sum
/// gives the negated outcome.
pub proof fn lemma_accumulated_reversed<M: ModelOfOneVariable>(
    equation: M,
    steps: Seq<CalculationStep>,
    bounds: Bounds,
    direction: i128,
    sum: CalculationResult,
)
    requires
        direction == 1 || direction == -1,
        sum.symmetric(),
    ensures
        accumulated(equation, steps, bounds, (-direction) as i128, sum.negated()) == negated_sum(
            accumulated(equation, steps, bounds, direction, sum),
        ),
        accumulated(equation, steps, bounds, direction, sum) matches Ok(total)
            ==> total.symmetric(),
    decreases steps.len(),
{
    if steps.len() > 0 {
        match equation.contribution(steps[0], bounds) {
            Err(e) => {},
            Ok(contribution) => {
                let opposite = (-direction) as i128;
                assert(contribution.common * opposite == -(contribution.common * direction))
                    by (nonlinear_arith)
                    requires
                        opposite == -direction,
                ;
                assert(contribution.last * opposite == -(contribution.last * direction))
                    by (nonlinear_arith)
                    requires
                        opposite == -direction,
                ;
                match contribution.scaled(direction) {
                    Err(e) => {},
                    Ok(directed) => {
                        assert(contribution.scaled(opposite) == Ok::<CalculationResult, Error>(
                            directed.negated(),
                        ));
                        match sum.plus(directed) {
                            Err(e) => {},
                            Ok(next) => {
                                assert(sum.negated().plus(directed.negated()) == Ok::<
                                    CalculationResult,
                                    Error,
                                >(next.negated()));
                                lemma_accumulated_reversed(
                                    equation,
                                    steps.skip(1),
                                    bounds,
                                    direction,
                                    next,
                                );
                            },
                        }
                    },
                }
            },
        }
    }
}

/// Where one integrand contributes at every panel the negative of what
/// another contributes, its panels sum to the negative.
pub proof fn lemma_accumulated_negated<M1: ModelOfOneVariable, M2: ModelOfOneVariable>(
    first: M1,
    second: M2,
    steps: Seq<CalculationStep>,
    bounds: Bounds,
    direction: i128,
    sum: CalculationResult,
)
    requires
        sum.symmetric(),
        forall|step: CalculationStep| #[trigger]
            second.contribution(step, bounds) == negated_sum(first.contribution(step, bounds)),
        forall|step: CalculationStep|
            (#[trigger] first.contribution(step, bounds)) matches Ok(contribution)
                ==> contribution.symmetric(),
    ensures
        accumulated(second, steps, bounds, direction, sum.negated()) == negated_sum(
            accumulated(first, steps, bounds, direction, sum),
        ),
        accumulated(first, steps, bounds, direction, sum) matches Ok(total) ==> total.symmetric(),
    decreases steps.len(),
{
    if steps.len() > 0 {
        assert(second.contribution(steps[0], bounds) == negated_sum(
            first.contribution(steps[0], bounds),
        ));
        match first.contribution(steps[0], bounds) {
            Err(e) => {},
            Ok(contribution) => {
                let opposite = contribution.negated();
                assert(opposite.common * direction == -(contribution.common * direction))
                    by (nonlinear_arith)
                    requires
                        opposite.common == -contribution.common,
                ;
                assert(opposite.last * direction == -(contribution.last * direction))
                    by (nonlinear_arith)
                    requires
                        opposite.last == -contribution.last,
                ;
                match contribution.scaled(direction) {
                    Err(e) => {},
                    Ok(directed) => {
                        assert(opposite.scaled(direction) == Ok::<CalculationResult, Error>(
                            directed.negated(),
                        ));
                        match sum.plus(directed) {
                            Err(e) => {},
                            Ok(next) => {
                                assert(sum.negated().plus(directed.negated()) == Ok::<
                                    CalculationResult,
                                    Error,
                                >(next.negated()));
                                lemma_accumulated_negated(
                                    first,
                                    second,
                                    steps.skip(1),
                                    bounds,
                                    direction,
                                    next,
                                );
                            },
                        }
                    },
                }
            },
        }
    }
}

/// The Simpson constant of one variable commutes with negation.
pub proof fn lemma_finalized_reversed(quadrature: SimpsonModelOfOne, sum: CalculationResult)
    requires
        sum.symmetric(),
    ensures
        quadrature.finalized(sum.negated()) == negated_outcome(quadrature.finalized(sum)),
{
    let h = quadrature.h;
    let c = sum.common;
    assert(h * (-c) == -(h * c)) by (nonlinear_arith);
    lemma_quotient_odd(h * c, 3);
}

/// The Simpson constant of two variables commutes with negation.
pub proof fn lemma_finalized_reversed_double(quadrature: SimpsonModelOfTwo, sum: CalculationResult)
    requires
        sum.symmetric(),
    ensures
        quadrature.finalized(sum.negated()) == negated_outcome(quadrature.finalized(sum)),
{
    let c = sum.common;
    if in_range(quadrature.h * quadrature.k) {
        let area = (quadrature.h * quadrature.k) as i128;
        assert(area * (-c) == -(area * c)) by (nonlinear_arith);
        lemma_quotient_odd(area * c, 9);
    }
}

/// The Simpson constant of three variables commutes with negation.
pub proof fn lemma_finalized_reversed_triple(
    quadrature: SimpsonModelOfThree,
    sum: CalculationResult,
)
    requires
        sum.symmetric(),
    ensures
        quadrature.finalized(sum.negated()) == negated_outcome(quadrature.finalized(sum)),
{
    let c = sum.common;
    if in_range(quadrature.h * quadrature.k) {
        let area = (quadrature.h * quadrature.k) as i128;
        if in_range(area * quadrature.l) {
            let volume = (area * quadrature.l) as i128;
            assert(volume * (-c) == -(volume * c)) by (nonlinear_arith);
            lemma_quotient_odd(volume * c, 27);
        }
    }
}

/// Reversing the limits of an integral negates its value, and keeps its
/// failure where it fails.
pub proof fn lemma_reversed_limits_negate(
    equation: spec_fn(i128) -> Result<i128, Error>,
    a: i128,
    b: i128,
    h: i128,
)
    ensures
        single_integral_simpson(equation, b, a, h) == negated_outcome(
            single_integral_simpson(equation, a, b, h),
        ),
{
    let quadrature = SimpsonModelOfOne { equation, h };
    let forward = BoundsConfigurator::configuration(a, b);
    let backward = BoundsConfigurator::configuration(b, a);
    BoundsConfigurator::lemma_configuration(a, b);
    let steps = steps_through(forward.bounds, h);
    if a != b && steps.len() > 0 {
        lemma_accumulated_reversed(
            quadrature,
            steps,
            forward.bounds,
            forward.direction_coeff,
            CalculationResult::zero(),
        );
        assert(CalculationResult::zero().negated() == CalculationResult::zero());
        match accumulated(
            quadrature,
            steps,
            forward.bounds,
            forward.direction_coeff,
            CalculationResult::zero(),
        ) {
            Err(e) => {},
            Ok(sum) => {
                lemma_finalized_reversed(quadrature, sum);
            },
        }
    }
}

/// Reversing the outer limits of a double integral negates its value, and
/// keeps its failure where it fails.
pub proof fn lemma_reversed_outer_limits_negate_double(
    equation: spec_fn(i128, i128) -> Result<i128, Error>,
    a: i128,
    b: i128,
    h: i128,
    second_begin: spec_fn(i128) -> Result<i128, Error>,
    second_end: spec_fn(i128) -> Result<i128, Error>,
    k: i128,
)
    ensures
        double_integral_simpson(equation, b, a, h, second_begin, second_end, k) == negated_outcome(
            double_integral_simpson(equation, a, b, h, second_begin, second_end, k),
        ),
{
    let inner = inner_of_double(equation, h, second_begin, second_end, k);
    let forward = BoundsConfigurator::configuration(a, b);
    BoundsConfigurator::lemma_configuration(a, b);
    let steps = steps_through(forward.bounds, h);
    if a != b && steps.len() > 0 {
        lemma_accumulated_reversed(
            inner,
            steps,
            forward.bounds,
            forward.direction_coeff,
            CalculationResult::zero(),
        );
        assert(CalculationResult::zero().negated() == CalculationResult::zero());
        match accumulated(
            inner,
            steps,
            forward.bounds,
            forward.direction_coeff,
            CalculationResult::zero(),
        ) {
            Err(e) => {},
            Ok(sum) => {
                lemma_finalized_reversed_double(inner.equation, sum);
            },
        }
    }
}

/// Reversing the outer limits of a triple integral negates its value, and
/// keeps its failure where it fails.
pub proof fn lemma_reversed_outer_limits_negate_triple(
    equation: spec_fn(i128, i128, i128) -> Result<i128, Error>,
    a: i128,
    b: i128,
    h: i128,
    second_begin: spec_fn(i128) -> Result<i128, Error>,
    second_end: spec_fn(i128) -> Result<i128, Error>,
    k: i128,
    third_begin: spec_fn(i128, i128) -> Result<i128, Error>,
    third_end: spec_fn(i128, i128) -> Result<i128, Error>,
    l: i128,
)
    ensures
        triple_integral_simpson(
            equation,
            b,
            a,
            h,
            second_begin,
            second_end,
            k,
            third_begin,
            third_end,
            l,
        ) == negated_outcome(
            triple_integral_simpson(
                equation,
                a,
                b,
                h,
                second_begin,
                second_end,
                k,
                third_begin,
                third_end,
                l,
            ),
        ),
{
    let inner = inner_of_triple(equation, h, second_begin, second_end, k, third_begin, third_end, l);
    let forward = BoundsConfigurator::configuration(a, b);
    BoundsConfigurator::lemma_configuration(a, b);
    let steps = steps_through(forward.bounds, h);
    if a != b && steps.len() > 0 {
        lemma_accumulated_reversed(
            inner,
            steps,
            forward.bounds,
            forward.direction_coeff,
            CalculationResult::zero(),
        );
        assert(CalculationResult::zero().negated() == CalculationResult::zero());
        match accumulated(
            inner,
            steps,
            forward.bounds,
            forward.direction_coeff,
            CalculationResult::zero(),
        ) {
            Err(e) => {},
            Ok(sum) => {
                lemma_finalized_reversed_triple(inner.equation.equation, sum);
            },
        }
    }
}

/// Two limits do not fail differently: where both fail at a point, they fail
/// alike.
pub open spec fn fail_alike_of_one(
    a: spec_fn(i128) -> Result<i128, Error>,
    b: spec_fn(i128) -> Result<i128, Error>,
) -> bool {
    forall|x: i128| (#[trigger] a(x)) is Err && (#[trigger] b(x)) is Err ==> a(x) == b(x)
}

/// Two limits do not fail differently: where both fail at a point, they fail
/// alike.
pub open spec fn fail_alike_of_two(
    a: spec_fn(i128, i128) -> Result<i128, Error>,
    b: spec_fn(i128, i128) -> Result<i128, Error>,
) -> bool {
    forall|x: i128, y: i128|
        (#[trigger] a(x, y)) is Err && (#[trigger] b(x, y)) is Err ==> a(x, y) == b(x, y)
}

/// Stepping through bounds that span nothing takes no step.
pub open spec fn steps_nothing_through_nothing(
    steps: spec_fn(Bounds, i128) -> Seq<CalculationStep>,
) -> bool {
    forall|bounds: Bounds, h: i128|
        bounds.begin == bounds.end ==> (#[trigger] steps(bounds, h)).len() == 0
}

/// The integrator of the second variable with its limits exchanged.
pub open spec fn exchanged_second<M: ModelOfTwoVariable>(
    integrator: SecondIntegratorModel<M>,
) -> SecondIntegratorModel<M> {
    SecondIntegratorModel {
        a_equation: integrator.b_equation,
        b_equation: integrator.a_equation,
        h: integrator.h,
        steps: integrator.steps,
        equation: integrator.equation,
    }
}

/// The integrator of the third variable with its limits exchanged.
pub open spec fn exchanged_third<M: ModelOfThreeVariable>(
    integrator: ThirdIntegratorModel<M>,
) -> ThirdIntegratorModel<M> {
    ThirdIntegratorModel {
        a_equation: integrator.b_equation,
        b_equation: integrator.a_equation,
        h: integrator.h,
        steps: integrator.steps,
        equation: integrator.equation,
    }
}

/// Exchanging the limits of the second variable negates what every outer
/// panel contributes, and what it contributes can itself be negated.
pub proof fn lemma_exchanged_second<M: ModelOfTwoVariable>(
    integrator: SecondIntegratorModel<M>,
    value: CalculationStep,
    bounds: Bounds,
)
    requires
        fail_alike_of_one(integrator.a_equation, integrator.b_equation),
        steps_nothing_through_nothing(integrator.steps),
    ensures
        exchanged_second(integrator).contribution(value, bounds) == negated_sum(
            integrator.contribution(value, bounds),
        ),
        integrator.contribution(value, bounds) matches Ok(contribution)
            ==> contribution.symmetric(),
{
    let x = value.value();
    match ((integrator.a_equation)(x), (integrator.b_equation)(x)) {
        (Ok(a), Ok(b)) => {
            let config = BoundsConfigurator::configuration(a, b);
            BoundsConfigurator::lemma_configuration(a, b);
            let held = ModelAtFirst { equation: integrator.equation, value, bounds };
            let steps = (integrator.steps)(config.bounds, integrator.h);
            lemma_accumulated_reversed(
                held,
                steps,
                config.bounds,
                config.direction_coeff,
                CalculationResult::zero(),
            );
            assert(CalculationResult::zero().negated() == CalculationResult::zero());
        },
        _ => {},
    }
}

/// Exchanging the limits of the third variable negates what every cell of
/// outer panels contributes, and what it contributes can itself be negated.
pub proof fn lemma_exchanged_third<M: ModelOfThreeVariable>(
    integrator: ThirdIntegratorModel<M>,
    value1: CalculationStep,
    bounds1: Bounds,
    value2: CalculationStep,
    bounds2: Bounds,
)
    requires
        fail_alike_of_two(integrator.a_equation, integrator.b_equation),
        steps_nothing_through_nothing(integrator.steps),
    ensures
        exchanged_third(integrator).contribution(value1, bounds1, value2, bounds2) == negated_sum(
            integrator.contribution(value1, bounds1, value2, bounds2),
        ),
        integrator.contribution(value1, bounds1, value2, bounds2) matches Ok(contribution)
            ==> contribution.symmetric(),
{
    let x = value1.value();
    let y = value2.value();
    match ((integrator.a_equation)(x, y), (integrator.b_equation)(x, y)) {
        (Ok(a), Ok(b)) => {
            let config = BoundsConfigurator::configuration(a, b);
            BoundsConfigurator::lemma_configuration(a, b);
            let held = ModelAtFirstTwo {
                equation: integrator.equation,
                value1,
                bounds1,
                value2,
                bounds2,
            };
            let steps = (integrator.steps)(config.bounds, integrator.h);
            lemma_accumulated_reversed(
                held,
                steps,
                config.bounds,
                config.direction_coeff,
                CalculationResult::zero(),
            );
            assert(CalculationResult::zero().negated() == CalculationResult::zero());
        },
        _ => {},
    }
}

/// Exchanging the limits of the third variable negates what every outer
/// panel of the first variable contributes, and what it contributes can
/// itself be negated.
pub proof fn lemma_exchanged_third_within_second<M: ModelOfThreeVariable>(
    integrator: SecondIntegratorModel<ThirdIntegratorModel<M>>,
    value: CalculationStep,
    bounds: Bounds,
)
    requires
        fail_alike_of_two(integrator.equation.a_equation, integrator.equation.b_equation),
        steps_nothing_through_nothing(integrator.equation.steps),
    ensures
        (SecondIntegratorModel {
            a_equation: integrator.a_equation,
            b_equation: integrator.b_equation,
            h: integrator.h,
            steps: integrator.steps,
            equation: exchanged_third(integrator.equation),
        }).contribution(value, bounds) == negated_sum(integrator.contribution(value, bounds)),
        integrator.contribution(value, bounds) matches Ok(contribution)
            ==> contribution.symmetric(),
{
    let x = value.value();
    match ((integrator.a_equation)(x), (integrator.b_equation)(x)) {
        (Ok(a), Ok(b)) => {
            let config = BoundsConfigurator::configuration(a, b);
            let held = ModelAtFirst { equation: integrator.equation, value, bounds };
            let exchanged = ModelAtFirst {
                equation: exchanged_third(integrator.equation),
                value,
                bounds,
            };
            let steps = (integrator.steps)(config.bounds, integrator.h);
            assert forall|step: CalculationStep| #[trigger]
                exchanged.contribution(step, config.bounds) == negated_sum(
                    held.contribution(step, config.bounds),
                ) by {
                lemma_exchanged_third(integrator.equation, value, bounds, step, config.bounds);
            }
            assert forall|step: CalculationStep|
                (#[trigger] held.contribution(step, config.bounds)) is Ok implies held.contribution(
                step,
                config.bounds,
            )->Ok_0.symmetric() by {
                lemma_exchanged_third(integrator.equation, value, bounds, step, config.bounds);
            }
            lemma_accumulated_negated(
                held,
                exchanged,
                steps,
                config.bounds,
                config.direction_coeff,
                CalculationResult::zero(),
            );
            assert(CalculationResult::zero().negated() == CalculationResult::zero());
        },
        _ => {},
    }
}

/// Exchanging the limits of the second variable of a double integral negates
/// its value, and keeps its failure where it fails, provided that the two
/// limits do not fail differently at one point.
pub proof fn lemma_reversed_inner_limits_negate_double(
    equation: spec_fn(i128, i128) -> Result<i128, Error>,
    a: i128,
    b: i128,
    h: i128,
    second_begin: spec_fn(i128) -> Result<i128, Error>,
    second_end: spec_fn(i128) -> Result<i128, Error>,
    k: i128,
)
    requires
        fail_alike_of_one(second_begin, second_end),
    ensures
        double_integral_simpson(equation, a, b, h, second_end, second_begin, k) == negated_outcome(
            double_integral_simpson(equation, a, b, h, second_begin, second_end, k),
        ),
{
    let inner = inner_of_double(equation, h, second_begin, second_end, k);
    let exchanged = inner_of_double(equation, h, second_end, second_begin, k);
    assert(exchanged == exchanged_second(inner));
    let config = BoundsConfigurator::configuration(a, b);
    let steps = steps_through(config.bounds, h);
    if steps.len() > 0 {
        assert forall|step: CalculationStep| #[trigger]
            exchanged.contribution(step, config.bounds) == negated_sum(
                inner.contribution(step, config.bounds),
            ) by {
            lemma_exchanged_second(inner, step, config.bounds);
        }
        assert forall|step: CalculationStep|
            (#[trigger] inner.contribution(step, config.bounds)) is Ok implies inner.contribution(
            step,
            config.bounds,
        )->Ok_0.symmetric() by {
            lemma_exchanged_second(inner, step, config.bounds);
        }
        lemma_accumulated_negated(
            inner,
            exchanged,
            steps,
            config.bounds,
            config.direction_coeff,
            CalculationResult::zero(),
        );
        assert(CalculationResult::zero().negated() == CalculationResult::zero());
        match accumulated(
            inner,
            steps,
            config.bounds,
            config.direction_coeff,
            CalculationResult::zero(),
        ) {
            Err(e) => {},
            Ok(sum) => {
                lemma_finalized_reversed_double(inner.equation, sum);
            },
        }
    }
}

/// Exchanging the limits of the second variable of a triple integral negates
/// its value, and keeps its failure where it fails, provided that the two
/// limits do not fail differently at one point.
pub proof fn lemma_reversed_second_limits_negate_triple(
    equation: spec_fn(i128, i128, i128) -> Result<i128, Error>,
    a: i128,
    b: i128,
    h: i128,
    second_begin: spec_fn(i128) -> Result<i128, Error>,
    second_end: spec_fn(i128) -> Result<i128, Error>,
    k: i128,
    third_begin: spec_fn(i128, i128) -> Result<i128, Error>,
    third_end: spec_fn(i128, i128) -> Result<i128, Error>,
    l: i128,
)
    requires
        fail_alike_of_one(second_begin, second_end),
    ensures
        triple_integral_simpson(
            equation,
            a,
            b,
            h,
            second_end,
            second_begin,
            k,
            third_begin,
            third_end,
            l,
        ) == negated_outcome(
            triple_integral_simpson(
                equation,
                a,
                b,
                h,
                second_begin,
                second_end,
                k,
                third_begin,
                third_end,
                l,
            ),
        ),
{
    let inner = inner_of_triple(equation, h, second_begin, second_end, k, third_begin, third_end, l);
    let exchanged = inner_of_triple(
        equation,
        h,
        second_end,
        second_begin,
        k,
        third_begin,
        third_end,
        l,
    );
    assert(exchanged == exchanged_second(inner));
    let config = BoundsConfigurator::configuration(a, b);
    let steps = steps_through(config.bounds, h);
    if steps.len() > 0 {
        assert forall|step: CalculationStep| #[trigger]
            exchanged.contribution(step, config.bounds) == negated_sum(
                inner.contribution(step, config.bounds),
            ) by {
            lemma_exchanged_second(inner, step, config.bounds);
        }
        assert forall|step: CalculationStep|
            (#[trigger] inner.contribution(step, config.bounds)) is Ok implies inner.contribution(
            step,
            config.bounds,
        )->Ok_0.symmetric() by {
            lemma_exchanged_second(inner, step, config.bounds);
        }
        lemma_accumulated_negated(
            inner,
            exchanged,
            steps,
            config.bounds,
            config.direction_coeff,
            CalculationResult::zero(),
        );
        assert(CalculationResult::zero().negated() == CalculationResult::zero());
        match accumulated(
            inner,
            steps,
            config.bounds,
            config.direction_coeff,
            CalculationResult::zero(),
        ) {
            Err(e) => {},
            Ok(sum) => {
                lemma_finalized_reversed_triple(inner.equation.equation, sum);
            },
        }
    }
}

/// Exchanging the limits of the third variable of a triple integral negates
/// its value, and keeps its failure where it fails, provided that the two
/// limits do not fail differently at one point.
pub proof fn lemma_reversed_third_limits_negate_triple(
    equation: spec_fn(i128, i128, i128) -> Result<i128, Error>,
    a: i128,
    b: i128,
    h: i128,
    second_begin: spec_fn(i128) -> Result<i128, Error>,
    second_end: spec_fn(i128) -> Result<i128, Error>,
    k: i128,
    third_begin: spec_fn(i128, i128) -> Result<i128, Error>,
    third_end: spec_fn(i128, i128) -> Result<i128, Error>,
    l: i128,
)
    requires
        fail_alike_of_two(third_begin, third_end),
    ensures
        triple_integral_simpson(
            equation,
            a,
            b,
            h,
            second_begin,
            second_end,
            k,
            third_end,
            third_begin,
            l,
        ) == negated_outcome(
            triple_integral_simpson(
                equation,
                a,
                b,
                h,
                second_begin,
                second_end,
                k,
                third_begin,
                third_end,
                l,
            ),
        ),
{
    let inner = inner_of_triple(equation, h, second_begin, second_end, k, third_begin, third_end, l);
    let exchanged = inner_of_triple(
        equation,
        h,
        second_begin,
        second_end,
        k,
        third_end,
        third_begin,
        l,
    );
    assert(exchanged == (SecondIntegratorModel {
        a_equation: inner.a_equation,
        b_equation: inner.b_equation,
        h: inner.h,
        steps: inner.steps,
        equation: exchanged_third(inner.equation),
    }));
    let config = BoundsConfigurator::configuration(a, b);
    let steps = steps_through(config.bounds, h);
    if steps.len() > 0 {
        assert forall|step: CalculationStep| #[trigger]
            exchanged.contribution(step, config.bounds) == negated_sum(
                inner.contribution(step, config.bounds),
            ) by {
            lemma_exchanged_third_within_second(inner, step, config.bounds);
        }
        assert forall|step: CalculationStep|
            (#[trigger] inner.contribution(step, config.bounds)) is Ok implies inner.contribution(
            step,
            config.bounds,
        )->Ok_0.symmetric() by {
            lemma_exchanged_third_within_second(inner, step, config.bounds);
        }
        lemma_accumulated_negated(
            inner,
            exchanged,
            steps,
            config.bounds,
            config.direction_coeff,
            CalculationResult::zero(),
        );
        assert(CalculationResult::zero().negated() == CalculationResult::zero());
        match accumulated(
            inner,
            steps,
            config.bounds,
            config.direction_coeff,
            CalculationResult::zero(),
        ) {
            Err(e) => {},
            Ok(sum) => {
                lemma_finalized_reversed_triple(inner.equation.equation, sum);
            },
        }
    }
}

} // verus!

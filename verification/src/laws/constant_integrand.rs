//! The integral of the constant one is the distance between its limits.
use vstd::prelude::*;

use crate::calculation_functions::single_integral_simpson;
use crate::engine::arithmetic::{in_range, quotient};
use crate::engine::helper_equation_traits::ModelOfOneVariable;
use crate::engine::integrators::utils::accumulated;
use crate::engine::quadrature::simpson::utils::{all_values, lemma_all_values, SimpsonPoints};
use crate::engine::quadrature::simpson::{simpson_steps, SimpsonModelOfOne};
use crate::engine::{Bounds, CalculationResult, CalculationStep};
use crate::errors::Error;

verus! {

/// Where the integrand is one everywhere, the stencil over any three points
/// is six.
pub proof fn lemma_constant_one_stencil(
    quadrature: SimpsonModelOfOne,
    x_values: Seq<i128>,
)
    requires
        forall|x: i128| #[trigger] (quadrature.equation)(x) == Ok::<i128, Error>(1),
    ensures
        quadrature.simpson(x_values) == Ok::<i128, Error>(6),
{
    let samples = quadrature.samples(x_values);
    assert forall|m: int| 0 <= m < samples.len() implies (#[trigger] samples[m]) is Ok by {
        assert(samples[m] == (quadrature.equation)(x_values[m]));
    }
    lemma_all_values(samples);
    let f = all_values(samples);
    assert(f[0] == 1 && f[1] == 1 && f[2] == 1);
}

/// Where the integrand is one everywhere, an ordinary panel contributes six
/// to the common channel.
proof fn lemma_constant_one_common(
    quadrature: SimpsonModelOfOne,
    bounds: Bounds,
    x: i128,
)
    requires
        quadrature.h > 0,
        x + 2 * quadrature.h <= i128::MAX,
        forall|x: i128| #[trigger] (quadrature.equation)(x) == Ok::<i128, Error>(1),
    ensures
        quadrature.contribution(CalculationStep::Common(x), bounds) == Ok::<
            CalculationResult,
            Error,
        >(CalculationResult { common: 6, last: 0 }),
{
    match SimpsonPoints::points(CalculationStep::Common(x), bounds, quadrature.h) {
        Err(e) => {},
        Ok(points) => {
            lemma_constant_one_stencil(quadrature, seq![points.v0, points.v1, points.v2]);
        },
    }
}

/// Where the integrand is one everywhere, the last panel contributes twice
/// its half-step to the last channel.
proof fn lemma_constant_one_last(
    quadrature: SimpsonModelOfOne,
    bounds: Bounds,
    x: i128,
)
    requires
        x < bounds.end,
        forall|x: i128| #[trigger] (quadrature.equation)(x) == Ok::<i128, Error>(1),
    ensures
        quadrature.contribution(CalculationStep::Last(x), bounds) matches Ok(contribution)
            ==> contribution == (CalculationResult {
            common: 0,
            last: (2 * ((bounds.end - x) / 2)) as i128,
        }),
        quadrature.contribution(CalculationStep::Last(x), bounds) matches Err(e) ==> e
            == Error::Overflow,
        x > i128::MIN && 3 * (bounds.end - x) <= i128::MAX ==> quadrature.contribution(
            CalculationStep::Last(x),
            bounds,
        ) is Ok,
{
    let half = (bounds.end - x) / 2;
    assert(quotient(bounds.end - x, 2) == half);
    assert(half * 6 == 6 * half) by (nonlinear_arith);
    assert(quotient(6 * half, 3) == 2 * half);
    match SimpsonPoints::points(CalculationStep::Last(x), bounds, quadrature.h) {
        Err(e) => {},
        Ok(points) => {
            assert(points.h == half);
            lemma_constant_one_stencil(quadrature, seq![points.v0, points.v1, points.v2]);
        },
    }
}

/// Finalizing a sum whose common channel, under the half-step, is three times
/// a distance: the value is that distance plus the last channel.
proof fn lemma_constant_one_finalized(
    quadrature: SimpsonModelOfOne,
    sum: CalculationResult,
    distance: int,
)
    requires
        quadrature.h * sum.common == 3 * distance,
    ensures
        quadrature.finalized(sum) matches Ok(value) ==> value == distance + sum.last,
        quadrature.finalized(sum) matches Err(e) ==> e == Error::Overflow,
        in_range(3 * distance) && in_range(distance + sum.last) ==> quadrature.finalized(sum)
            is Ok,
{
    assert(quotient(3 * distance, 3) == distance);
}

/// Summing the panels of the constant integrand one from `x` to the end of
/// `[a, b]`, on top of what the panels from `a` to `x` gave, and finalizing:
/// the value lies at most one below `b - a`, and nothing but an overflow
/// fails it, which does not happen while `a` and `3 * (b - a)` are in range.
proof fn lemma_constant_one_from(
    quadrature: SimpsonModelOfOne,
    a: i128,
    b: i128,
    x: i128,
    common: i128,
)
    requires
        quadrature.h > 0,
        a <= x < b,
        common >= 0,
        quadrature.h * common == 3 * (x - a),
        forall|x: i128| #[trigger] (quadrature.equation)(x) == Ok::<i128, Error>(1),
    ensures
        ({
            let total = accumulated(
                quadrature,
                simpson_steps(x as int, b as int, quadrature.h as int),
                Bounds { begin: a, end: b },
                1,
                CalculationResult { common, last: 0 },
            );
            let outcome = match total {
                Err(e) => Err(e),
                Ok(sum) => quadrature.finalized(sum),
            };
            &&& outcome matches Ok(value) ==> b - a - 1 <= value <= b - a
            &&& outcome matches Err(e) ==> e == Error::Overflow
            &&& a > i128::MIN && 3 * (b - a) <= i128::MAX ==> outcome is Ok
        }),
    decreases b - x,
{
    let h = quadrature.h;
    let bounds = Bounds { begin: a, end: b };
    let steps = simpson_steps(x as int, b as int, h as int);
    let sum = CalculationResult { common, last: 0 };
    let rest = steps.skip(1);
    assert(common <= 3 * (x - a)) by (nonlinear_arith)
        requires
            h >= 1,
            common >= 0,
            h * common == 3 * (x - a),
    ;
    if x >= b - 2 * h {
        let step = CalculationStep::Last(x);
        assert(steps =~= seq![step]);
        assert(rest =~= Seq::<CalculationStep>::empty());
        lemma_constant_one_last(quadrature, bounds, x);
        match quadrature.contribution(step, bounds) {
            Err(e) => {},
            Ok(contribution) => {
                assert(contribution.common * 1 == 0);
                assert(contribution.last * 1 == contribution.last);
                assert(contribution.scaled(1) == Ok::<CalculationResult, Error>(contribution));
                match sum.plus(contribution) {
                    Err(e) => {},
                    Ok(next) => {
                        assert(accumulated(quadrature, rest, bounds, 1, next) == Ok::<
                            CalculationResult,
                            Error,
                        >(next));
                        lemma_constant_one_finalized(quadrature, next, x - a);
                    },
                }
            },
        }
    } else {
        let step = CalculationStep::Common(x);
        assert(steps =~= seq![step].add(simpson_steps(x + 2 * h, b as int, h as int)));
        assert(rest =~= simpson_steps(x + 2 * h, b as int, h as int));
        let after = (x + 2 * h) as i128;
        lemma_constant_one_common(quadrature, bounds, x);
        let contribution = CalculationResult { common: 6, last: 0 };
        assert(contribution.common * 1 == 6);
        assert(contribution.last * 1 == 0);
        assert(contribution.scaled(1) == Ok::<CalculationResult, Error>(contribution));
        assert(h * (common + 6) == 3 * (after - a)) by (nonlinear_arith)
            requires
                h * common == 3 * (x - a),
                after == x + 2 * h,
        ;
        assert(common + 6 <= 3 * (after - a)) by (nonlinear_arith)
            requires
                h >= 1,
                common >= 0,
                h * (common + 6) == 3 * (after - a),
        ;
        match sum.plus(contribution) {
            Err(e) => {},
            Ok(next) => {
                lemma_constant_one_from(quadrature, a, b, after, next.common);
            },
        }
    }
}

/// The integral of the constant one from `a` up to `b` is `b - a`, or one
/// less where the last panel is an odd number of ticks wide. Only an overflow
/// fails it, and none occurs while `a` and `3 * (b - a)` are in range.
pub proof fn lemma_constant_one(
    equation: spec_fn(i128) -> Result<i128, Error>,
    a: i128,
    b: i128,
    h: i128,
)
    requires
        h > 0,
        a <= b,
        forall|x: i128| #[trigger] equation(x) == Ok::<i128, Error>(1),
    ensures
        single_integral_simpson(equation, a, b, h) matches Ok(value) ==> b - a - 1 <= value <= b
            - a,
        single_integral_simpson(equation, a, b, h) matches Err(e) ==> e == Error::Overflow,
        a > i128::MIN && 3 * (b - a) <= i128::MAX ==> single_integral_simpson(
            equation,
            a,
            b,
            h,
        ) is Ok,
{
    if a < b {
        let quadrature = SimpsonModelOfOne { equation, h };
        assert(h * 0 == 0) by (nonlinear_arith);
        lemma_constant_one_from(quadrature, a, b, a, 0);
    }
}

} // verus!

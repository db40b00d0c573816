//! The Simpson rule for integrands of one variable.
use vstd::prelude::*;

use super::simpson_range::{lemma_simpson_steps, steps_through, SimpsonRangeGenerator};
use super::utils::{
    all_values,
    checked_row_sum,
    first_failure,
    lemma_all_values,
    lemma_first_failure,
    row_sum,
    with_constant,
    SimpsonPoints,
};
use crate::engine::arithmetic::{checked_product, checked_quotient, checked_sum, sum_of};
use crate::engine::function_types::{describes_one, evaluate_one, is_function_of_one};
use crate::engine::helper_equation_traits::{EquationOfOneVariable, ModelOfOneVariable};
use crate::engine::quadrature::{
    FinalizeCalculation,
    GetQuadratureRange,
    GetStepSizeSingleIntegral,
    QuadratureSingleIntegral,
};
use crate::engine::{Bounds, CalculationResult, CalculationStep};
use crate::errors::Error;

verus! {

/// The mathematics of the rule: a function of one variable and the half-step
/// to sample it at.
pub struct SimpsonModelOfOne {
    pub equation: spec_fn(i128) -> Result<i128, Error>,
    pub h: i128,
}

impl SimpsonModelOfOne {
    /// The function at each of the three points, in order.
    pub open spec fn samples(&self, x_values: Seq<i128>) -> Seq<Result<i128, Error>> {
        Seq::new(3, |n: int| (self.equation)(x_values[n]))
    }

    /// The stencil over three points: the first failure of the function, or
    /// its values weighted `1, 4, 1` and summed.
    pub open spec fn simpson(&self, x_values: Seq<i128>) -> Result<i128, Error> {
        match first_failure(self.samples(x_values)) {
            Some(e) => Err(e),
            None => row_sum(all_values(self.samples(x_values)), 0),
        }
    }

    /// `h * value / 3`.
    pub open spec fn with_simpson_constant(value: i128, h: i128) -> Result<i128, Error> {
        with_constant(Ok(value), Ok(h), 3)
    }

    /// The common channel under the constant of the rule's half-step, plus the
    /// last channel.
    pub open spec fn finalized(&self, result: CalculationResult) -> Result<i128, Error> {
        sum_of(Self::with_simpson_constant(result.common, self.h), Ok(result.last))
    }
}

impl ModelOfOneVariable for SimpsonModelOfOne {
    /// An ordinary panel contributes its stencil value to the common channel.
    /// The last panel contributes its stencil value under the constant of its
    /// own half-step to the last channel.
    open spec fn contribution(&self, value: CalculationStep, bounds: Bounds) -> Result<
        CalculationResult,
        Error,
    > {
        match SimpsonPoints::points(value, bounds, self.h) {
            Err(e) => Err(e),
            Ok(x) => match self.simpson(seq![x.v0, x.v1, x.v2]) {
                Err(e) => Err(e),
                Ok(sum) => if value is Last {
                    match Self::with_simpson_constant(sum, x.h) {
                        Err(e) => Err(e),
                        Ok(last) => Ok(CalculationResult { common: 0, last }),
                    }
                } else {
                    Ok(CalculationResult { common: sum, last: 0 })
                },
            },
        }
    }
}

/// An integrand of one variable with the half-step to sample it at.
pub struct SimpsonQuadratureSingleIntegral<E: Fn(i128) -> Result<i128, Error>> {
    pub equation: E,
    pub h: i128,
}

impl<E: Fn(i128) -> Result<i128, Error>> SimpsonQuadratureSingleIntegral<E> {
    /// The rule for `equation` with half-step `h`. This never fails.
    pub fn new(equation: E, h: i128) -> (r: Result<Self, Error>)
        ensures
            r matches Ok(quadrature) && quadrature.equation == equation && quadrature.h == h,
    {
        Ok(Self { equation, h })
    }

    /// Samples the integrand at the three points and applies the stencil.
    pub fn calculate_simpson(&self, x_values: [i128; 3]) -> (r: Result<i128, Error>)
        requires
            is_function_of_one(self.equation),
        ensures
            forall|model: SimpsonModelOfOne| #[trigger]
                self.modelled_by(model) ==> r == model.simpson(x_values@),
    {
        let mut f: Vec<i128> = Vec::new();
        let mut n: usize = 0;
        while n < 3
            invariant
                n <= 3,
                f.len() == n,
                is_function_of_one(self.equation),
                forall|m: int|
                    0 <= m < n ==> call_ensures(
                        self.equation,
                        (x_values@[m],),
                        Ok::<i128, Error>(#[trigger] f[m]),
                    ),
            decreases 3 - n,
        {
            match evaluate_one(&self.equation, x_values[n]) {
                Ok(value) => f.push(value),
                Err(e) => {
                    assert forall|model: SimpsonModelOfOne| #[trigger]
                        self.modelled_by(model) implies Err::<i128, Error>(e) == model.simpson(
                        x_values@,
                    ) by {
                        let samples = model.samples(x_values@);
                        assert forall|m: int| 0 <= m < n implies (#[trigger] samples[m]) is Ok by {
                            assert(samples[m] == Ok::<i128, Error>(f[m]));
                        }
                        lemma_first_failure(samples, n as int);
                    }
                    return Err(e);
                },
            }
            n += 1;
        }
        let r = checked_row_sum(&f, 0);
        assert forall|model: SimpsonModelOfOne| #[trigger] self.modelled_by(model) implies r
            == model.simpson(x_values@) by {
            let samples = model.samples(x_values@);
            assert forall|m: int| 0 <= m < samples.len() implies (#[trigger] samples[m]) is Ok by {
                assert(samples[m] == Ok::<i128, Error>(f[m]));
            }
            lemma_all_values(samples);
            assert forall|m: int| 0 <= m < 3 implies f@[m] == #[trigger] all_values(samples)[m] by {
                assert(samples[m] == Ok::<i128, Error>(f[m]));
            }
            assert(f@ =~= all_values(samples));
        }
        r
    }

    /// Applies the Simpson constant of half-step `h` to `value`.
    pub fn multiple_with_simpson_constant(value: i128, h: i128) -> (r: Result<i128, Error>)
        ensures
            r == SimpsonModelOfOne::with_simpson_constant(value, h),
    {
        let product: i128 = checked_product(h, value)?;
        checked_quotient(product, 3)
    }
}

impl<E: Fn(i128) -> Result<i128, Error>> EquationOfOneVariable for SimpsonQuadratureSingleIntegral<
    E,
> {
    type Model = SimpsonModelOfOne;

    open spec fn wf(&self) -> bool {
        is_function_of_one(self.equation)
    }

    open spec fn modelled_by(&self, model: SimpsonModelOfOne) -> bool {
        &&& describes_one(self.equation, model.equation)
        &&& model.h == self.h
    }

    fn calculate(&self, x: CalculationStep, bounds: Bounds) -> (r: Result<
        CalculationResult,
        Error,
    >) {
        let mut is_last_step = false;
        let x = SimpsonPoints::generate(x, bounds, self.h, &mut is_last_step)?;
        let x_values = [x.v0, x.v1, x.v2];
        assert(x_values@ =~= seq![x.v0, x.v1, x.v2]);

        let mut result = CalculationResult::new();
        if is_last_step {
            let sum: i128 = self.calculate_simpson(x_values)?;
            let last: i128 = Self::multiple_with_simpson_constant(sum, x.h)?;
            result.add_last(last)?;
        } else {
            let sum: i128 = self.calculate_simpson(x_values)?;
            result.add_common(sum)?;
        }
        Ok(result)
    }
}

impl<E: Fn(i128) -> Result<i128, Error>> FinalizeCalculation for SimpsonQuadratureSingleIntegral<
    E,
> {
    /// The common channel under the constant of the rule's half-step, plus the
    /// last channel.
    open spec fn finalized(&self, result: CalculationResult) -> Result<i128, Error> {
        sum_of(SimpsonModelOfOne::with_simpson_constant(result.common, self.h), Ok(result.last))
    }

    fn finalize(&self, result: CalculationResult) -> (r: Result<i128, Error>) {
        let common: i128 = Self::multiple_with_simpson_constant(result.common, self.h)?;
        checked_sum(common, result.last)
    }
}

impl<E: Fn(i128) -> Result<i128, Error>> GetStepSizeSingleIntegral for SimpsonQuadratureSingleIntegral<
    E,
> {
    open spec fn step_size(&self) -> i128 {
        self.h
    }

    fn get_step_size(&self) -> (r: i128) {
        self.h
    }
}

impl<E: Fn(i128) -> Result<i128, Error>> GetQuadratureRange for SimpsonQuadratureSingleIntegral<
    E,
> {
    type Generator = SimpsonRangeGenerator;

    open spec fn steps(bounds: Bounds, h: i128) -> Seq<CalculationStep> {
        steps_through(bounds, h)
    }

    fn get_range_generator(bounds: Bounds, h: i128) -> (r: Result<
        Option<SimpsonRangeGenerator>,
        Error,
    >) {
        proof {
            if bounds.begin != bounds.end {
                lemma_simpson_steps(bounds.begin as int, bounds.end as int, h as int);
            }
        }
        SimpsonRangeGenerator::new(bounds, h)
    }
}

impl<E: Fn(i128) -> Result<i128, Error>> QuadratureSingleIntegral for SimpsonQuadratureSingleIntegral<
    E,
> {

}

} // verus!

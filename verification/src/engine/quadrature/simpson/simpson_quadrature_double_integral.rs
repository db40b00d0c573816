//! The Simpson rule for integrands of two variables.
use vstd::prelude::*;

use super::simpson_range::{lemma_simpson_steps, steps_through, SimpsonRangeGenerator};
use super::utils::{
    all_values,
    checked_plane_sum,
    first_failure,
    lemma_all_values,
    lemma_first_failure,
    plane_sum,
    with_constant,
    SimpsonPoints,
};
use crate::engine::arithmetic::{checked_product, checked_quotient, checked_sum, product_of, sum_of};
use crate::engine::function_types::{describes_two, evaluate_two, is_function_of_two};
use crate::engine::helper_equation_traits::{EquationOfTwoVariable, ModelOfTwoVariable};
use crate::engine::quadrature::{
    FinalizeCalculation,
    GetQuadratureRange,
    GetStepSizeDoubleIntegral,
    QuadratureDoubleIntegral,
};
use crate::engine::{Bounds, CalculationResult, CalculationStep};
use crate::errors::Error;

verus! {

/// The mathematics of the rule: a function of two variables and the
/// half-steps to sample it at, `h` along the first variable and `k` along the
/// second.
pub struct SimpsonModelOfTwo {
    pub equation: spec_fn(i128, i128) -> Result<i128, Error>,
    pub h: i128,
    pub k: i128,
}

impl SimpsonModelOfTwo {
    /// The function at each of the nine grid points: sample `3 * i + j` is
    /// taken at `(x_values[i], y_values[j])`.
    pub open spec fn samples(&self, x_values: Seq<i128>, y_values: Seq<i128>) -> Seq<
        Result<i128, Error>,
    > {
        Seq::new(9, |n: int| (self.equation)(x_values[n / 3], y_values[n % 3]))
    }

    /// The stencil over the grid: the first failure of the function, or its
    /// values weighted by the product of `1, 4, 1` along both axes and summed.
    pub open spec fn simpson(&self, x_values: Seq<i128>, y_values: Seq<i128>) -> Result<
        i128,
        Error,
    > {
        match first_failure(self.samples(x_values, y_values)) {
            Some(e) => Err(e),
            None => plane_sum(all_values(self.samples(x_values, y_values)), 0),
        }
    }

    /// `h * k * value / 9`.
    pub open spec fn with_simpson_constant(value: i128, h: i128, k: i128) -> Result<i128, Error> {
        with_constant(Ok(value), product_of(Ok(h), Ok(k)), 9)
    }

    /// The common channel under the constant of the rule's half-steps, plus
    /// the last channel.
    pub open spec fn finalized(&self, result: CalculationResult) -> Result<i128, Error> {
        sum_of(Self::with_simpson_constant(result.common, self.h, self.k), Ok(result.last))
    }
}

impl ModelOfTwoVariable for SimpsonModelOfTwo {
    /// A cell of two ordinary panels contributes its stencil value to the
    /// common channel. A cell with a last panel along either variable
    /// contributes its stencil value under the constant of its own half-steps
    /// to the last channel.
    open spec fn contribution(
        &self,
        value1: CalculationStep,
        bounds1: Bounds,
        value2: CalculationStep,
        bounds2: Bounds,
    ) -> Result<CalculationResult, Error> {
        match SimpsonPoints::points(value1, bounds1, self.h) {
            Err(e) => Err(e),
            Ok(x) => match SimpsonPoints::points(value2, bounds2, self.k) {
                Err(e) => Err(e),
                Ok(y) => match self.simpson(seq![x.v0, x.v1, x.v2], seq![y.v0, y.v1, y.v2]) {
                    Err(e) => Err(e),
                    Ok(sum) => if value1 is Last || value2 is Last {
                        match Self::with_simpson_constant(sum, x.h, y.h) {
                            Err(e) => Err(e),
                            Ok(last) => Ok(CalculationResult { common: 0, last }),
                        }
                    } else {
                        Ok(CalculationResult { common: sum, last: 0 })
                    },
                },
            },
        }
    }
}

/// An integrand of two variables with the half-steps to sample it at: `h`
/// along the first variable, `k` along the second.
pub struct SimpsonQuadratureDoubleIntegral<E: Fn(i128, i128) -> Result<i128, Error>> {
    pub equation: E,
    pub h: i128,
    pub k: i128,
}

impl<E: Fn(i128, i128) -> Result<i128, Error>> SimpsonQuadratureDoubleIntegral<E> {
    /// The rule for `equation` with half-steps `h` and `k`. This never fails.
    pub fn new(equation: E, h: i128, k: i128) -> (r: Result<Self, Error>)
        ensures
            r matches Ok(quadrature) && quadrature.equation == equation && quadrature.h == h
                && quadrature.k == k,
    {
        Ok(Self { equation, h, k })
    }

    /// Samples the integrand at the nine grid points and applies the stencil.
    pub fn calculate_simpson(&self, x_values: [i128; 3], y_values: [i128; 3]) -> (r: Result<
        i128,
        Error,
    >)
        requires
            is_function_of_two(self.equation),
        ensures
            forall|model: SimpsonModelOfTwo| #[trigger]
                self.modelled_by(model) ==> r == model.simpson(x_values@, y_values@),
    {
        let mut f: Vec<i128> = Vec::new();
        let mut n: usize = 0;
        while n < 9
            invariant
                n <= 9,
                f.len() == n,
                is_function_of_two(self.equation),
                forall|m: int|
                    0 <= m < n ==> call_ensures(
                        self.equation,
                        (x_values@[m / 3], y_values@[m % 3]),
                        Ok::<i128, Error>(#[trigger] f[m]),
                    ),
            decreases 9 - n,
        {
            match evaluate_two(&self.equation, x_values[n / 3], y_values[n % 3]) {
                Ok(value) => f.push(value),
                Err(e) => {
                    assert forall|model: SimpsonModelOfTwo| #[trigger]
                        self.modelled_by(model) implies Err::<i128, Error>(e) == model.simpson(
                        x_values@,
                        y_values@,
                    ) by {
                        let samples = model.samples(x_values@, y_values@);
                        assert forall|m: int| 0 <= m < n implies (#[trigger] samples[m]) is Ok by {
                            assert(samples[m] == Ok::<i128, Error>(f[m]));
                        }
                        lemma_first_failure(samples, n as int);
                    }
                    return Err(e);
                },
            }
            n += 1;
        }
        let r = checked_plane_sum(&f, 0);
        assert forall|model: SimpsonModelOfTwo| #[trigger] self.modelled_by(model) implies r
            == model.simpson(x_values@, y_values@) by {
            let samples = model.samples(x_values@, y_values@);
            assert forall|m: int| 0 <= m < samples.len() implies (#[trigger] samples[m]) is Ok by {
                assert(samples[m] == Ok::<i128, Error>(f[m]));
            }
            lemma_all_values(samples);
            assert forall|m: int| 0 <= m < 9 implies f@[m] == #[trigger] all_values(samples)[m] by {
                assert(samples[m] == Ok::<i128, Error>(f[m]));
            }
            assert(f@ =~= all_values(samples));
        }
        r
    }

    /// Applies the Simpson constant of half-steps `h` and `k` to `value`.
    pub fn multiple_with_simpson_constant(value: i128, h: i128, k: i128) -> (r: Result<
        i128,
        Error,
    >)
        ensures
            r == SimpsonModelOfTwo::with_simpson_constant(value, h, k),
    {
        let area: i128 = checked_product(h, k)?;
        let product: i128 = checked_product(area, value)?;
        checked_quotient(product, 9)
    }
}

impl<E: Fn(i128, i128) -> Result<i128, Error>> EquationOfTwoVariable for SimpsonQuadratureDoubleIntegral<
    E,
> {
    type Model = SimpsonModelOfTwo;

    open spec fn wf(&self) -> bool {
        is_function_of_two(self.equation)
    }

    open spec fn modelled_by(&self, model: SimpsonModelOfTwo) -> bool {
        &&& describes_two(self.equation, model.equation)
        &&& model.h == self.h
        &&& model.k == self.k
    }

    fn calculate(
        &self,
        x: CalculationStep,
        bounds_x: Bounds,
        y: CalculationStep,
        bounds_y: Bounds,
    ) -> (r: Result<CalculationResult, Error>) {
        let mut is_last_step = false;

        let x = SimpsonPoints::generate(x, bounds_x, self.h, &mut is_last_step)?;
        let y = SimpsonPoints::generate(y, bounds_y, self.k, &mut is_last_step)?;

        let x_values = [x.v0, x.v1, x.v2];
        let y_values = [y.v0, y.v1, y.v2];
        assert(x_values@ =~= seq![x.v0, x.v1, x.v2]);
        assert(y_values@ =~= seq![y.v0, y.v1, y.v2]);

        let mut result = CalculationResult::new();
        if is_last_step {
            let sum: i128 = self.calculate_simpson(x_values, y_values)?;
            let last: i128 = Self::multiple_with_simpson_constant(sum, x.h, y.h)?;
            result.add_last(last)?;
        } else {
            let sum: i128 = self.calculate_simpson(x_values, y_values)?;
            result.add_common(sum)?;
        }
        Ok(result)
    }
}

impl<E: Fn(i128, i128) -> Result<i128, Error>> FinalizeCalculation for SimpsonQuadratureDoubleIntegral<
    E,
> {
    /// The common channel under the constant of the rule's half-steps, plus
    /// the last channel.
    open spec fn finalized(&self, result: CalculationResult) -> Result<i128, Error> {
        sum_of(
            SimpsonModelOfTwo::with_simpson_constant(result.common, self.h, self.k),
            Ok(result.last),
        )
    }

    fn finalize(&self, result: CalculationResult) -> (r: Result<i128, Error>) {
        let common: i128 = Self::multiple_with_simpson_constant(result.common, self.h, self.k)?;
        checked_sum(common, result.last)
    }
}

impl<E: Fn(i128, i128) -> Result<i128, Error>> GetStepSizeDoubleIntegral for SimpsonQuadratureDoubleIntegral<
    E,
> {
    open spec fn step_size(&self) -> (i128, i128) {
        (self.h, self.k)
    }

    fn get_step_size(&self) -> (r: (i128, i128)) {
        (self.h, self.k)
    }
}

impl<E: Fn(i128, i128) -> Result<i128, Error>> GetQuadratureRange for SimpsonQuadratureDoubleIntegral<
    E,
> {
    type Generator = SimpsonRangeGenerator;

    open spec fn steps(bounds: Bounds, h: i128) -> Seq<CalculationStep> {
        steps_through(bounds, h)
    }

    fn get_range_generator(bounds: Bounds, h: i128) -> (r: Result<
        Option<SimpsonRangeGenerator>,
        Error,
    >) {
        proof {
            if bounds.begin != bounds.end {
                lemma_simpson_steps(bounds.begin as int, bounds.end as int, h as int);
            }
        }
        SimpsonRangeGenerator::new(bounds, h)
    }
}

impl<E: Fn(i128, i128) -> Result<i128, Error>> QuadratureDoubleIntegral for SimpsonQuadratureDoubleIntegral<
    E,
> {

}

} // verus!

//! The Simpson rule for integrands of three variables.
use vstd::prelude::*;

use super::simpson_range::{lemma_simpson_steps, steps_through, SimpsonRangeGenerator};
use super::utils::{
    all_values,
    checked_cube_sum,
    cube_sum,
    first_failure,
    lemma_all_values,
    lemma_first_failure,
    with_constant,
    SimpsonPoints,
};
use crate::engine::arithmetic::{checked_product, checked_quotient, checked_sum, product_of, sum_of};
use crate::engine::function_types::{describes_three, evaluate_three, is_function_of_three};
use crate::engine::helper_equation_traits::{EquationOfThreeVariable, ModelOfThreeVariable};
use crate::engine::quadrature::{
    FinalizeCalculation,
    GetQuadratureRange,
    GetStepSizeTripleIntegral,
    QuadratureTripleIntegral,
};
use crate::engine::{Bounds, CalculationResult, CalculationStep};
use crate::errors::Error;

verus! {

/// The mathematics of the rule: a function of three variables and the
/// half-steps to sample it at, `h` along the first variable, `k` along the
/// second and `l` along the third.
pub struct SimpsonModelOfThree {
    pub equation: spec_fn(i128, i128, i128) -> Result<i128, Error>,
    pub h: i128,
    pub k: i128,
    pub l: i128,
}

impl SimpsonModelOfThree {
    /// The function at each of the twenty-seven grid points: sample
    /// `9 * i + 3 * j + k` is taken at `(x_values[i], y_values[j], z_values[k])`.
    pub open spec fn samples(
        &self,
        x_values: Seq<i128>,
        y_values: Seq<i128>,
        z_values: Seq<i128>,
    ) -> Seq<Result<i128, Error>> {
        Seq::new(
            27,
            |n: int| (self.equation)(x_values[n / 9], y_values[(n / 3) % 3], z_values[n % 3]),
        )
    }

    /// The stencil over the grid: the first failure of the function, or its
    /// values weighted by the product of `1, 4, 1` along the three axes and
    /// summed.
    pub open spec fn simpson(
        &self,
        x_values: Seq<i128>,
        y_values: Seq<i128>,
        z_values: Seq<i128>,
    ) -> Result<i128, Error> {
        match first_failure(self.samples(x_values, y_values, z_values)) {
            Some(e) => Err(e),
            None => cube_sum(all_values(self.samples(x_values, y_values, z_values))),
        }
    }

    /// `h * k * l * value / 27`.
    pub open spec fn with_simpson_constant(value: i128, h: i128, k: i128, l: i128) -> Result<
        i128,
        Error,
    > {
        with_constant(Ok(value), product_of(product_of(Ok(h), Ok(k)), Ok(l)), 27)
    }

    /// The common channel under the constant of the rule's half-steps, plus
    /// the last channel.
    pub open spec fn finalized(&self, result: CalculationResult) -> Result<i128, Error> {
        sum_of(
            Self::with_simpson_constant(result.common, self.h, self.k, self.l),
            Ok(result.last),
        )
    }
}

impl ModelOfThreeVariable for SimpsonModelOfThree {
    /// A cell of three ordinary panels contributes its stencil value to the
    /// common channel. A cell with a last panel along any variable contributes
    /// its stencil value under the constant of its own half-steps to the last
    /// channel.
    open spec fn contribution(
        &self,
        value1: CalculationStep,
        bounds1: Bounds,
        value2: CalculationStep,
        bounds2: Bounds,
        value3: CalculationStep,
        bounds3: Bounds,
    ) -> Result<CalculationResult, Error> {
        match SimpsonPoints::points(value1, bounds1, self.h) {
            Err(e) => Err(e),
            Ok(x) => match SimpsonPoints::points(value2, bounds2, self.k) {
                Err(e) => Err(e),
                Ok(y) => match SimpsonPoints::points(value3, bounds3, self.l) {
                    Err(e) => Err(e),
                    Ok(z) => match self.simpson(
                        seq![x.v0, x.v1, x.v2],
                        seq![y.v0, y.v1, y.v2],
                        seq![z.v0, z.v1, z.v2],
                    ) {
                        Err(e) => Err(e),
                        Ok(sum) => if value1 is Last || value2 is Last || value3 is Last {
                            match Self::with_simpson_constant(sum, x.h, y.h, z.h) {
                                Err(e) => Err(e),
                                Ok(last) => Ok(CalculationResult { common: 0, last }),
                            }
                        } else {
                            Ok(CalculationResult { common: sum, last: 0 })
                        },
                    },
                },
            },
        }
    }
}

/// An integrand of three variables with the half-steps to sample it at: `h`
/// along the first variable, `k` along the second, `l` along the third.
pub struct SimpsonQuadratureTripleIntegral<E: Fn(i128, i128, i128) -> Result<i128, Error>> {
    pub equation: E,
    pub h: i128,
    pub k: i128,
    pub l: i128,
}

impl<E: Fn(i128, i128, i128) -> Result<i128, Error>> SimpsonQuadratureTripleIntegral<E> {
    /// The rule for `equation` with half-steps `h`, `k` and `l`. This never
    /// fails.
    pub fn new(equation: E, h: i128, k: i128, l: i128) -> (r: Result<Self, Error>)
        ensures
            r matches Ok(quadrature) && quadrature.equation == equation && quadrature.h == h
                && quadrature.k == k && quadrature.l == l,
    {
        Ok(Self { equation, h, k, l })
    }

    /// Samples the integrand at the twenty-seven grid points and applies the
    /// stencil.
    pub fn calculate_simpson(
        &self,
        x_values: [i128; 3],
        y_values: [i128; 3],
        z_values: [i128; 3],
    ) -> (r: Result<i128, Error>)
        requires
            is_function_of_three(self.equation),
        ensures
            forall|model: SimpsonModelOfThree| #[trigger]
                self.modelled_by(model) ==> r == model.simpson(x_values@, y_values@, z_values@),
    {
        let mut f: Vec<i128> = Vec::new();
        let mut n: usize = 0;
        while n < 27
            invariant
                n <= 27,
                f.len() == n,
                is_function_of_three(self.equation),
                forall|m: int|
                    0 <= m < n ==> call_ensures(
                        self.equation,
                        (x_values@[m / 9], y_values@[(m / 3) % 3], z_values@[m % 3]),
                        Ok::<i128, Error>(#[trigger] f[m]),
                    ),
            decreases 27 - n,
        {
            match evaluate_three(
                &self.equation,
                x_values[n / 9],
                y_values[(n / 3) % 3],
                z_values[n % 3],
            ) {
                Ok(value) => f.push(value),
                Err(e) => {
                    assert forall|model: SimpsonModelOfThree| #[trigger]
                        self.modelled_by(model) implies Err::<i128, Error>(e) == model.simpson(
                        x_values@,
                        y_values@,
                        z_values@,
                    ) by {
                        let samples = model.samples(x_values@, y_values@, z_values@);
                        assert forall|m: int| 0 <= m < n implies (#[trigger] samples[m]) is Ok by {
                            assert(samples[m] == Ok::<i128, Error>(f[m]));
                        }
                        lemma_first_failure(samples, n as int);
                    }
                    return Err(e);
                },
            }
            n += 1;
        }
        let r = checked_cube_sum(&f);
        assert forall|model: SimpsonModelOfThree| #[trigger] self.modelled_by(model) implies r
            == model.simpson(x_values@, y_values@, z_values@) by {
            let samples = model.samples(x_values@, y_values@, z_values@);
            assert forall|m: int| 0 <= m < samples.len() implies (#[trigger] samples[m]) is Ok by {
                assert(samples[m] == Ok::<i128, Error>(f[m]));
            }
            lemma_all_values(samples);
            assert forall|m: int| 0 <= m < 27 implies f@[m] == #[trigger] all_values(samples)[m] by {
                assert(samples[m] == Ok::<i128, Error>(f[m]));
            }
            assert(f@ =~= all_values(samples));
        }
        r
    }

    /// Applies the Simpson constant of half-steps `h`, `k` and `l` to `value`.
    pub fn multiple_with_simpson_constant(value: i128, h: i128, k: i128, l: i128) -> (r: Result<
        i128,
        Error,
    >)
        ensures
            r == SimpsonModelOfThree::with_simpson_constant(value, h, k, l),
    {
        let area: i128 = checked_product(h, k)?;
        let volume: i128 = checked_product(area, l)?;
        let product: i128 = checked_product(volume, value)?;
        checked_quotient(product, 27)
    }
}

impl<E: Fn(i128, i128, i128) -> Result<i128, Error>> EquationOfThreeVariable for SimpsonQuadratureTripleIntegral<
    E,
> {
    type Model = SimpsonModelOfThree;

    open spec fn wf(&self) -> bool {
        is_function_of_three(self.equation)
    }

    open spec fn modelled_by(&self, model: SimpsonModelOfThree) -> bool {
        &&& describes_three(self.equation, model.equation)
        &&& model.h == self.h
        &&& model.k == self.k
        &&& model.l == self.l
    }

    fn calculate(
        &self,
        x: CalculationStep,
        bounds_x: Bounds,
        y: CalculationStep,
        bounds_y: Bounds,
        z: CalculationStep,
        bounds_z: Bounds,
    ) -> (r: Result<CalculationResult, Error>) {
        let mut is_last_step = false;

        let x = SimpsonPoints::generate(x, bounds_x, self.h, &mut is_last_step)?;
        let y = SimpsonPoints::generate(y, bounds_y, self.k, &mut is_last_step)?;
        let z = SimpsonPoints::generate(z, bounds_z, self.l, &mut is_last_step)?;

        let x_values = [x.v0, x.v1, x.v2];
        let y_values = [y.v0, y.v1, y.v2];
        let z_values = [z.v0, z.v1, z.v2];
        assert(x_values@ =~= seq![x.v0, x.v1, x.v2]);
        assert(y_values@ =~= seq![y.v0, y.v1, y.v2]);
        assert(z_values@ =~= seq![z.v0, z.v1, z.v2]);

        let mut result = CalculationResult::new();
        if is_last_step {
            let sum: i128 = self.calculate_simpson(x_values, y_values, z_values)?;
            let last: i128 = Self::multiple_with_simpson_constant(sum, x.h, y.h, z.h)?;
            result.add_last(last)?;
        } else {
            let sum: i128 = self.calculate_simpson(x_values, y_values, z_values)?;
            result.add_common(sum)?;
        }
        Ok(result)
    }
}

impl<E: Fn(i128, i128, i128) -> Result<i128, Error>> FinalizeCalculation for SimpsonQuadratureTripleIntegral<
    E,
> {
    /// The common channel under the constant of the rule's half-steps, plus
    /// the last channel.
    open spec fn finalized(&self, result: CalculationResult) -> Result<i128, Error> {
        sum_of(
            SimpsonModelOfThree::with_simpson_constant(result.common, self.h, self.k, self.l),
            Ok(result.last),
        )
    }

    fn finalize(&self, result: CalculationResult) -> (r: Result<i128, Error>) {
        let common: i128 = Self::multiple_with_simpson_constant(
            result.common,
            self.h,
            self.k,
            self.l,
        )?;
        checked_sum(common, result.last)
    }
}

impl<E: Fn(i128, i128, i128) -> Result<i128, Error>> GetStepSizeTripleIntegral for SimpsonQuadratureTripleIntegral<
    E,
> {
    open spec fn step_size(&self) -> (i128, i128, i128) {
        (self.h, self.k, self.l)
    }

    fn get_step_size(&self) -> (r: (i128, i128, i128)) {
        (self.h, self.k, self.l)
    }
}

impl<E: Fn(i128, i128, i128) -> Result<i128, Error>> GetQuadratureRange for SimpsonQuadratureTripleIntegral<
    E,
> {
    type Generator = SimpsonRangeGenerator;

    open spec fn steps(bounds: Bounds, h: i128) -> Seq<CalculationStep> {
        steps_through(bounds, h)
    }

    fn get_range_generator(bounds: Bounds, h: i128) -> (r: Result<
        Option<SimpsonRangeGenerator>,
        Error,
    >) {
        proof {
            if bounds.begin != bounds.end {
                lemma_simpson_steps(bounds.begin as int, bounds.end as int, h as int);
            }
        }
        SimpsonRangeGenerator::new(bounds, h)
    }
}

impl<E: Fn(i128, i128, i128) -> Result<i128, Error>> QuadratureTripleIntegral for SimpsonQuadratureTripleIntegral<
    E,
> {

}

} // verus!

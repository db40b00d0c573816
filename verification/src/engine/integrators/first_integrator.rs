//! The integrator of the first variable.
use vstd::prelude::*;

use super::utils::{accumulate, accumulated, BoundsConfigurator};
use crate::engine::helper_equation_traits::{EquationOfOneVariable, ModelOfOneVariable};
use crate::engine::quadrature::{FinalizeCalculation, GetQuadratureRange};
use crate::engine::CalculationResult;
use crate::errors::Error;

verus! {

/// Integrates over limits that are plain numbers.
pub struct FirstIntegrator;

impl FirstIntegrator {
    /// The integral of `model` from `a` to `b` with half-step `h`.
    ///
    /// It is zero where the limits are equal. Otherwise the limits are brought
    /// into order, the panels between them are summed, each multiplied by the
    /// direction, and `quadrature` turns the sum into the value.
    pub open spec fn integral<M: ModelOfOneVariable, G: GetQuadratureRange + FinalizeCalculation>(
        a: i128,
        b: i128,
        h: i128,
        model: M,
        quadrature: &G,
    ) -> Result<i128, Error> {
        let config = BoundsConfigurator::configuration(a, b);
        let steps = G::steps(config.bounds, h);
        if steps.len() == 0 {
            Ok(0)
        } else {
            match accumulated(
                model,
                steps,
                config.bounds,
                config.direction_coeff,
                CalculationResult::zero(),
            ) {
                Err(e) => Err(e),
                Ok(sum) => quadrature.finalized(sum),
            }
        }
    }

    /// Integrates `equation` from `a` to `b` with half-step `h`.
    pub fn integrate<E: EquationOfOneVariable, G: GetQuadratureRange + FinalizeCalculation>(
        a: i128,
        b: i128,
        h: i128,
        equation: &E,
        quadrature: &G,
    ) -> (r: Result<i128, Error>)
        requires
            h > 0,
            equation.wf(),
        ensures
            forall|model: E::Model| #[trigger]
                equation.modelled_by(model) ==> r == Self::integral(a, b, h, model, quadrature),
    {
        let borders_config = BoundsConfigurator::configurate(a, b)?;

        let range = match G::get_range_generator(borders_config.bounds, h)? {
            Some(range) => range,
            None => {
                let result = CalculationResult::new();
                return Ok(result.common);
            },
        };

        let result = accumulate(
            equation,
            range,
            borders_config.bounds,
            borders_config.direction_coeff,
        )?;
        quadrature.finalize(result)
    }
}

} // verus!

//! The stepping loop that every dimension runs.
use vstd::prelude::*;

use crate::engine::helper_equation_traits::{
    EquationOfOneVariable,
    EquationOfThreeVariable,
    EquationOfTwoVariable,
    ModelOfOneVariable,
    ModelOfThreeVariable,
    ModelOfTwoVariable,
};
use crate::engine::range_generator::{ends_in_single_last, RangeGenerator};
use crate::engine::{Bounds, CalculationResult, CalculationStep};
use crate::errors::Error;

verus! {

/// `sum` plus what the panels at `steps` contribute, each contribution
/// multiplied by `direction` before it is added. The first panel that fails,
/// or whose contribution cannot be held, fails the whole.
pub open spec fn accumulated<M: ModelOfOneVariable>(
    model: M,
    steps: Seq<CalculationStep>,
    bounds: Bounds,
    direction: i128,
    sum: CalculationResult,
) -> Result<CalculationResult, Error>
    decreases steps.len(),
{
    if steps.len() == 0 {
        Ok(sum)
    } else {
        match model.contribution(steps[0], bounds) {
            Err(e) => Err(e),
            Ok(contribution) => match contribution.scaled(direction) {
                Err(e) => Err(e),
                Ok(directed) => match sum.plus(directed) {
                    Err(e) => Err(e),
                    Ok(next) => accumulated(model, steps.skip(1), bounds, direction, next),
                },
            },
        }
    }
}

/// Steps through `range` and sums what the panels contribute, each
/// contribution multiplied by `direction`.
pub fn accumulate<E: EquationOfOneVariable, R: RangeGenerator>(
    equation: &E,
    range: R,
    bounds: Bounds,
    direction: i128,
) -> (r: Result<CalculationResult, Error>)
    requires
        equation.wf(),
        range.wf(),
        ends_in_single_last(range.pending()),
    ensures
        forall|model: E::Model| #[trigger]
            equation.modelled_by(model) ==> r == accumulated(
                model,
                range.pending(),
                bounds,
                direction,
                CalculationResult::zero(),
            ),
{
    let mut cursor = range;
    let mut result = CalculationResult::new();
    loop
        invariant_except_break
            cursor.wf(),
            ends_in_single_last(cursor.pending()),
            forall|model: E::Model| #[trigger]
                equation.modelled_by(model) ==> accumulated(
                    model,
                    cursor.pending(),
                    bounds,
                    direction,
                    result,
                ) == accumulated(
                    model,
                    range.pending(),
                    bounds,
                    direction,
                    CalculationResult::zero(),
                ),
        invariant
            equation.wf(),
        ensures
            forall|model: E::Model| #[trigger]
                equation.modelled_by(model) ==> Ok::<CalculationResult, Error>(result)
                    == accumulated(
                    model,
                    range.pending(),
                    bounds,
                    direction,
                    CalculationResult::zero(),
                ),
        decreases cursor.pending().len(),
    {
        let ghost before = cursor.pending();
        let ghost sum = result;
        let step = cursor.next()?;
        assert(step == before[0]);
        let ghost after = cursor.pending();
        let contribution = match equation.calculate(step, bounds) {
            Ok(contribution) => contribution,
            Err(e) => {
                assert forall|model: E::Model| #[trigger] equation.modelled_by(model) implies Err::<
                    CalculationResult,
                    Error,
                >(e) == accumulated(
                    model,
                    range.pending(),
                    bounds,
                    direction,
                    CalculationResult::zero(),
                ) by {
                    assert(accumulated(model, before, bounds, direction, sum) == Err::<
                        CalculationResult,
                        Error,
                    >(e));
                }
                return Err(e);
            },
        };
        let directed = match contribution.mul(direction) {
            Ok(directed) => directed,
            Err(e) => {
                assert forall|model: E::Model| #[trigger] equation.modelled_by(model) implies Err::<
                    CalculationResult,
                    Error,
                >(e) == accumulated(
                    model,
                    range.pending(),
                    bounds,
                    direction,
                    CalculationResult::zero(),
                ) by {
                    assert(accumulated(model, before, bounds, direction, sum) == Err::<
                        CalculationResult,
                        Error,
                    >(e));
                }
                return Err(e);
            },
        };
        match result.add_assign(directed) {
            Ok(()) => {},
            Err(e) => {
                assert forall|model: E::Model| #[trigger] equation.modelled_by(model) implies Err::<
                    CalculationResult,
                    Error,
                >(e) == accumulated(
                    model,
                    range.pending(),
                    bounds,
                    direction,
                    CalculationResult::zero(),
                ) by {
                    assert(accumulated(model, before, bounds, direction, sum) == Err::<
                        CalculationResult,
                        Error,
                    >(e));
                }
                return Err(e);
            },
        }
        proof {
            assert(after == before.skip(1));
            assert forall|model: E::Model| #[trigger] equation.modelled_by(model) implies accumulated(
                model,
                after,
                bounds,
                direction,
                result,
            ) == accumulated(
                model,
                range.pending(),
                bounds,
                direction,
                CalculationResult::zero(),
            ) by {
                assert(accumulated(model, before, bounds, direction, sum) == accumulated(
                    model,
                    after,
                    bounds,
                    direction,
                    result,
                ));
            }
            if step is Last {
                assert(before.len() == 1) by {
                    if before.len() > 1 {
                        assert(before[0] is Common);
                    }
                }
                assert(after.len() == 0);
            } else {
                assert(before.len() > 1);
                assert(after[after.len() - 1] == before[before.len() - 1]);
                assert forall|i: int| 0 <= i < after.len() - 1 implies #[trigger] after[i] is Common by {
                    assert(before[i + 1] is Common);
                }
            }
        }
        if step.is_last() {
            break ;
        }
    }
    Ok(result)
}

/// The mathematics of an integrand of two variables with its first variable
/// held at one panel.
pub struct ModelAtFirst<M: ModelOfTwoVariable> {
    pub equation: M,
    pub value: CalculationStep,
    pub bounds: Bounds,
}

impl<M: ModelOfTwoVariable> ModelOfOneVariable for ModelAtFirst<M> {
    open spec fn contribution(&self, value: CalculationStep, bounds: Bounds) -> Result<
        CalculationResult,
        Error,
    > {
        self.equation.contribution(self.value, self.bounds, value, bounds)
    }
}

/// An integrand of two variables with its first variable held at one panel:
/// an integrand of the second variable alone.
pub struct EquationAtFirst<'a, E: EquationOfTwoVariable> {
    pub equation: &'a E,
    pub value: CalculationStep,
    pub bounds: Bounds,
}

impl<'a, E: EquationOfTwoVariable> EquationOfOneVariable for EquationAtFirst<'a, E> {
    type Model = ModelAtFirst<E::Model>;

    open spec fn wf(&self) -> bool {
        self.equation.wf()
    }

    open spec fn modelled_by(&self, model: Self::Model) -> bool {
        &&& self.equation.modelled_by(model.equation)
        &&& model.value == self.value
        &&& model.bounds == self.bounds
    }

    fn calculate(&self, value: CalculationStep, bounds: Bounds) -> (r: Result<
        CalculationResult,
        Error,
    >) {
        self.equation.calculate(self.value, self.bounds, value, bounds)
    }
}

/// The mathematics of an integrand of three variables with its first two
/// variables held at one panel each.
pub struct ModelAtFirstTwo<M: ModelOfThreeVariable> {
    pub equation: M,
    pub value1: CalculationStep,
    pub bounds1: Bounds,
    pub value2: CalculationStep,
    pub bounds2: Bounds,
}

impl<M: ModelOfThreeVariable> ModelOfOneVariable for ModelAtFirstTwo<M> {
    open spec fn contribution(&self, value: CalculationStep, bounds: Bounds) -> Result<
        CalculationResult,
        Error,
    > {
        self.equation.contribution(
            self.value1,
            self.bounds1,
            self.value2,
            self.bounds2,
            value,
            bounds,
        )
    }
}

/// An integrand of three variables with its first two variables held at one
/// panel each: an integrand of the third variable alone.
pub struct EquationAtFirstTwo<'a, E: EquationOfThreeVariable> {
    pub equation: &'a E,
    pub value1: CalculationStep,
    pub bounds1: Bounds,
    pub value2: CalculationStep,
    pub bounds2: Bounds,
}

impl<'a, E: EquationOfThreeVariable> EquationOfOneVariable for EquationAtFirstTwo<'a, E> {
    type Model = ModelAtFirstTwo<E::Model>;

    open spec fn wf(&self) -> bool {
        self.equation.wf()
    }

    open spec fn modelled_by(&self, model: Self::Model) -> bool {
        &&& self.equation.modelled_by(model.equation)
        &&& model.value1 == self.value1
        &&& model.bounds1 == self.bounds1
        &&& model.value2 == self.value2
        &&& model.bounds2 == self.bounds2
    }

    fn calculate(&self, value: CalculationStep, bounds: Bounds) -> (r: Result<
        CalculationResult,
        Error,
    >) {
        self.equation.calculate(self.value1, self.bounds1, self.value2, self.bounds2, value, bounds)
    }
}

} // verus!

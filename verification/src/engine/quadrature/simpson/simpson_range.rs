//! Stepping through a range panel by panel.
use vstd::prelude::*;

use crate::engine::range_generator::{ends_in_single_last, RangeGenerator};
use crate::engine::{Bounds, CalculationStep};
use crate::errors::Error;

verus! {

/// The panel starts from `position` up to `end` with half-step `h`: one every
/// `2 * h`, the one from which no more than `2 * h` remain marked as last.
pub open spec fn simpson_steps(position: int, end: int, h: int) -> Seq<CalculationStep>
    decreases end - position,
    when h > 0
{
    if position >= end {
        Seq::empty()
    } else if position >= end - 2 * h {
        seq![CalculationStep::Last(position as i128)]
    } else {
        seq![CalculationStep::Common(position as i128)].add(
            simpson_steps(position + 2 * h, end, h),
        )
    }
}

/// Stepping from `position` toward `end` emits ordinary steps and then exactly
/// one last step. Each step starts `2 * h` after the one before it, and the
/// last one is the first from which no more than `2 * h` remain.
pub proof fn lemma_simpson_steps(position: int, end: int, h: int)
    requires
        h > 0,
        i128::MIN <= position < end <= i128::MAX,
    ensures
        ends_in_single_last(simpson_steps(position, end, h)),
        simpson_steps(position, end, h)[0].value() == position,
        forall|i: int|
            0 <= i < simpson_steps(position, end, h).len() - 1 ==> (#[trigger] simpson_steps(
                position,
                end,
                h,
            )[i + 1]).value() == simpson_steps(position, end, h)[i].value() + 2 * h,
        forall|i: int|
            0 <= i < simpson_steps(position, end, h).len() ==> position <= (#[trigger] simpson_steps(
                position,
                end,
                h,
            )[i]).value() < end,
        end - 2 * h <= simpson_steps(position, end, h)[simpson_steps(position, end, h).len()
            - 1].value(),
    decreases end - position,
{
    let steps = simpson_steps(position, end, h);
    if position >= end - 2 * h {
    } else {
        let rest = simpson_steps(position + 2 * h, end, h);
        lemma_simpson_steps(position + 2 * h, end, h);
        assert(steps.len() == rest.len() + 1);
        assert forall|i: int| 0 <= i < steps.len() - 1 implies #[trigger] steps[i] is Common by {
            if i > 0 {
                assert(steps[i] == rest[i - 1]);
            }
        }
        assert forall|i: int| 0 <= i < steps.len() - 1 implies (#[trigger] steps[i + 1]).value()
            == steps[i].value() + 2 * h by {
            assert(steps[i + 1] == rest[i]);
            if i > 0 {
                assert(steps[i] == rest[i - 1]);
                assert(rest[(i - 1) + 1] == rest[i]);
            }
        }
        assert forall|i: int| 0 <= i < steps.len() implies position <= (#[trigger] steps[i]).value()
            < end by {
            if i > 0 {
                assert(steps[i] == rest[i - 1]);
            }
        }
        assert(steps[steps.len() - 1] == rest[rest.len() - 1]);
    }
}

/// Step `i` of a range starts `2 * h * i` after the range's begin, and there
/// are as many steps as panels of width `2 * h` are needed to cover the range.
pub proof fn lemma_simpson_step_positions(position: int, end: int, h: int)
    requires
        h > 0,
        i128::MIN <= position < end <= i128::MAX,
    ensures
        forall|i: int|
            0 <= i < simpson_steps(position, end, h).len() ==> (#[trigger] simpson_steps(
                position,
                end,
                h,
            )[i]).value() == position + 2 * h * i,
        2 * h * (simpson_steps(position, end, h).len() - 1) < end - position <= 2 * h
            * simpson_steps(position, end, h).len(),
    decreases end - position,
{
    let steps = simpson_steps(position, end, h);
    if position >= end - 2 * h {
        assert(steps.len() == 1);
        assert(2 * h * 0 == 0) by (nonlinear_arith);
        assert(2 * h * 1 == 2 * h) by (nonlinear_arith);
    } else {
        let rest = simpson_steps(position + 2 * h, end, h);
        lemma_simpson_step_positions(position + 2 * h, end, h);
        assert(steps.len() == rest.len() + 1);
        assert(2 * h * 0 == 0) by (nonlinear_arith);
        assert forall|i: int| 0 <= i < steps.len() implies (#[trigger] steps[i]).value()
            == position + 2 * h * i by {
            if i > 0 {
                assert(steps[i] == rest[i - 1]);
                assert(2 * h * (i - 1) + 2 * h == 2 * h * i) by (nonlinear_arith);
            }
        }
        let n = rest.len() as int;
        assert(2 * h * (n + 1 - 1) == 2 * h * (n - 1) + 2 * h) by (nonlinear_arith);
        assert(2 * h * (n + 1) == 2 * h * n + 2 * h) by (nonlinear_arith);
    }
}

/// The steps through `bounds` with half-step `h`: none where the bounds span
/// nothing.
pub open spec fn steps_through(bounds: Bounds, h: i128) -> Seq<CalculationStep> {
    if bounds.begin == bounds.end {
        Seq::empty()
    } else {
        simpson_steps(bounds.begin as int, bounds.end as int, h as int)
    }
}

/// `position + 2 * h`, or `i128::MAX` where that cannot be held.
fn advanced(position: i128, h: i128) -> (r: i128)
    requires
        h > 0,
    ensures
        r == if position + 2 * h <= i128::MAX {
            position + 2 * h
        } else {
            i128::MAX as int
        },
{
    match position.checked_add(h) {
        Some(middle) => match middle.checked_add(h) {
            Some(next) => next,
            None => i128::MAX,
        },
        None => i128::MAX,
    }
}

/// A cursor over `[begin, end)` that advances by `2 * h` per step.
pub struct SimpsonRangeGenerator {
    end: i128,
    h: i128,
    current_step: i128,
}

impl SimpsonRangeGenerator {
    /// Where the next step starts.
    pub closed spec fn position(&self) -> i128 {
        self.current_step
    }

    /// Where the range ends.
    pub closed spec fn end(&self) -> i128 {
        self.end
    }

    /// The half-step: a panel is two of them wide.
    pub closed spec fn stride(&self) -> i128 {
        self.h
    }

    /// A generator over `bounds`, or none where the bounds span nothing.
    /// This never fails.
    pub fn new(bounds: Bounds, h: i128) -> (r: Result<Option<Self>, Error>)
        ensures
            match r {
                Ok(Some(generator)) => {
                    &&& bounds.begin != bounds.end
                    &&& generator.position() == bounds.begin
                    &&& generator.end() == bounds.end
                    &&& generator.stride() == h
                    &&& generator.pending() == steps_through(bounds, h)
                },
                Ok(None) => bounds.begin == bounds.end,
                Err(_) => false,
            },
    {
        if bounds.end == bounds.begin {
            return Ok(None);
        }
        Ok(Some(Self { end: bounds.end, h, current_step: bounds.begin }))
    }
}

impl RangeGenerator for SimpsonRangeGenerator {
    open spec fn wf(&self) -> bool {
        self.stride() > 0
    }

    open spec fn pending(&self) -> Seq<CalculationStep> {
        simpson_steps(self.position() as int, self.end() as int, self.stride() as int)
    }

    /// Fails with `RangeGeneratorOutOfBounds` exactly when the position has
    /// reached the end, which is the case after the last step was handed out.
    fn next(&mut self) -> (r: Result<CalculationStep, Error>)
        ensures
            final(self).end() == old(self).end(),
            final(self).stride() == old(self).stride(),
            old(self).position() >= old(self).end() ==> r == Err::<CalculationStep, Error>(
                Error::RangeGeneratorOutOfBounds {
                    step: old(self).position(),
                    end: old(self).end(),
                },
            ) && final(self).position() == old(self).position(),
            old(self).position() < old(self).end() ==> r == Ok::<CalculationStep, Error>(
                if old(self).position() >= old(self).end() - 2 * old(self).stride() {
                    CalculationStep::Last(old(self).position())
                } else {
                    CalculationStep::Common(old(self).position())
                },
            ) && final(self).position() == if old(self).position() + 2 * old(self).stride()
                <= i128::MAX {
                old(self).position() + 2 * old(self).stride()
            } else {
                i128::MAX as int
            },
    {
        if self.current_step >= self.end {
            return Err(
                Error::RangeGeneratorOutOfBounds { step: self.current_step, end: self.end },
            );
        }
        let position: i128 = self.current_step;
        let next: i128 = advanced(position, self.h);
        self.current_step = next;
        proof {
            let before = simpson_steps(position as int, self.end as int, self.h as int);
            let after = simpson_steps(next as int, self.end as int, self.h as int);
            assert(before.skip(1) =~= after);
        }
        if next >= self.end {
            Ok(CalculationStep::Last(position))
        } else {
            Ok(CalculationStep::Common(position))
        }
    }
}

} // verus!

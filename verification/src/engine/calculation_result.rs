//! The accumulator of an integration.
use vstd::prelude::*;

use crate::engine::arithmetic::{bounded, checked_product, checked_sum};
use crate::errors::Error;

verus! {

/// A partial integral in two channels.
///
/// `common` sums the stencil values of the ordinary panels and still lacks the
/// Simpson constant. `last` holds what the final panels contribute, already
/// multiplied by the constant of their own half-steps.
#[derive(Debug, Copy, Clone, PartialEq, Eq, Structural)]
pub struct CalculationResult {
    pub common: i128,
    pub last: i128,
}

impl CalculationResult {
    /// The accumulator that holds nothing yet.
    pub open spec fn zero() -> CalculationResult {
        CalculationResult { common: 0, last: 0 }
    }

    /// Channel by channel, the sum with `other`.
    pub open spec fn plus(self, other: CalculationResult) -> Result<CalculationResult, Error> {
        match (bounded(self.common + other.common), bounded(self.last + other.last)) {
            (Ok(common), Ok(last)) => Ok(CalculationResult { common, last }),
            _ => Err(Error::Overflow),
        }
    }

    /// Both channels multiplied by `coeff`.
    pub open spec fn scaled(self, coeff: i128) -> Result<CalculationResult, Error> {
        match (bounded(self.common * coeff), bounded(self.last * coeff)) {
            (Ok(common), Ok(last)) => Ok(CalculationResult { common, last }),
            _ => Err(Error::Overflow),
        }
    }

    /// Both channels negated.
    pub open spec fn negated(self) -> CalculationResult {
        CalculationResult { common: (-self.common) as i128, last: (-self.last) as i128 }
    }

    /// Neither channel is `i128::MIN`, so the accumulator can be negated.
    pub open spec fn symmetric(self) -> bool {
        self.common != i128::MIN && self.last != i128::MIN
    }

    /// The accumulator that holds nothing yet.
    pub fn new() -> (r: Self)
        ensures
            r == Self::zero(),
    {
        Self { common: 0, last: 0 }
    }

    /// Adds `value` to the common channel. On overflow nothing changes.
    pub fn add_common(&mut self, value: i128) -> (r: Result<(), Error>)
        ensures
            match bounded(old(self).common + value) {
                Ok(common) => r == Ok::<(), Error>(()) && *final(self) == (CalculationResult {
                    common,
                    last: old(self).last,
                }),
                Err(e) => r == Err::<(), Error>(e) && *final(self) == *old(self),
            },
    {
        match checked_sum(self.common, value) {
            Ok(common) => {
                self.common = common;
                Ok(())
            },
            Err(e) => Err(e),
        }
    }

    /// Adds `value` to the last channel. On overflow nothing changes.
    pub fn add_last(&mut self, value: i128) -> (r: Result<(), Error>)
        ensures
            match bounded(old(self).last + value) {
                Ok(last) => r == Ok::<(), Error>(()) && *final(self) == (CalculationResult {
                    common: old(self).common,
                    last,
                }),
                Err(e) => r == Err::<(), Error>(e) && *final(self) == *old(self),
            },
    {
        match checked_sum(self.last, value) {
            Ok(last) => {
                self.last = last;
                Ok(())
            },
            Err(e) => Err(e),
        }
    }

    /// Adds `other` channel by channel. On overflow nothing changes.
    pub fn add_assign(&mut self, other: Self) -> (r: Result<(), Error>)
        ensures
            match old(self).plus(other) {
                Ok(sum) => r == Ok::<(), Error>(()) && *final(self) == sum,
                Err(e) => r == Err::<(), Error>(e) && *final(self) == *old(self),
            },
    {
        let common = checked_sum(self.common, other.common);
        let last = checked_sum(self.last, other.last);
        match (common, last) {
            (Ok(common), Ok(last)) => {
                self.common = common;
                self.last = last;
                Ok(())
            },
            _ => Err(Error::Overflow),
        }
    }

    /// Multiplies both channels by `coeff`.
    pub fn mul(self, coeff: i128) -> (r: Result<Self, Error>)
        ensures
            r == self.scaled(coeff),
    {
        let common = checked_product(self.common, coeff);
        let last = checked_product(self.last, coeff);
        match (common, last) {
            (Ok(common), Ok(last)) => Ok(Self { common, last }),
            _ => Err(Error::Overflow),
        }
    }
}

} // verus!

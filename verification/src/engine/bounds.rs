//! A validated interval.
use vstd::prelude::*;

use crate::errors::Error;

verus! {

/// An interval from `begin` to `end`.
#[derive(Copy, Clone, Debug)]
pub struct Bounds {
    pub begin: i128,
    pub end: i128,
}

impl Bounds {
    /// The begin does not lie after the end.
    pub open spec fn wf(&self) -> bool {
        self.begin <= self.end
    }

    /// The interval from `begin` to `end`, refused when `begin` lies after `end`.
    pub fn new(begin: i128, end: i128) -> (r: Result<Self, Error>)
        ensures
            begin <= end ==> r == Ok::<Bounds, Error>(Bounds { begin, end }),
            begin > end ==> r == Err::<Bounds, Error>(
                Error::BeginBoundGreaterThanEndBound { begin, end },
            ),
    {
        if begin <= end {
            Ok(Self { begin, end })
        } else {
            Err(Error::BeginBoundGreaterThanEndBound { begin, end })
        }
    }
}

} // verus!

//! Limits in either order, brought into order.
use vstd::prelude::*;

use crate::engine::Bounds;
use crate::errors::Error;

verus! {

/// Limits brought into order, with the sign that the order they came in asks for.
#[derive(Copy, Clone, Debug)]
pub struct BoundsConfigurator {
    pub bounds: Bounds,
    pub direction_coeff: i128,
}

impl BoundsConfigurator {
    /// The configuration of an integration from `a` to `b`: the smaller limit
    /// first, and `-1` as direction when that is not `a`.
    pub open spec fn configuration(a: i128, b: i128) -> BoundsConfigurator {
        BoundsConfigurator {
            bounds: Bounds { begin: if a <= b { a } else { b }, end: if a <= b { b } else { a } },
            direction_coeff: if a <= b { 1i128 } else { (-1) as i128 },
        }
    }

    /// Orders the limits `a` and `b`. This never fails.
    pub fn configurate(a: i128, b: i128) -> (r: Result<Self, Error>)
        ensures
            r == Ok::<BoundsConfigurator, Error>(Self::configuration(a, b)),
    {
        let begin: i128 = if a <= b { a } else { b };
        let end: i128 = if a <= b { b } else { a };
        let direction_coeff: i128 = if begin != a { -1 } else { 1 };
        match Bounds::new(begin, end) {
            Ok(bounds) => Ok(Self { bounds, direction_coeff }),
            Err(e) => Err(e),
        }
    }

    /// The configured bounds are in order, and reversing the limits keeps the
    /// bounds and flips the direction unless the limits are equal.
    pub proof fn lemma_configuration(a: i128, b: i128)
        ensures
            Self::configuration(a, b).bounds.wf(),
            Self::configuration(b, a).bounds == Self::configuration(a, b).bounds,
            a != b ==> Self::configuration(b, a).direction_coeff == -Self::configuration(
                a,
                b,
            ).direction_coeff,
            a == b ==> Self::configuration(a, b).direction_coeff == 1,
    {
    }
}

} // verus!

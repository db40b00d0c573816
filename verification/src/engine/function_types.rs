//! What the engine asks of the integrands and bound functions it is handed,
//! and how a contract speaks of them.
//!
//! An integrand or a bound is a Rust closure over grid coordinates. The engine
//! asks only that it accepts every argument. What a closure computes is
//! stated against a mathematical function that describes it: a contract of
//! the engine holds for every such description.
use vstd::prelude::*;

use crate::errors::Error;

verus! {

/// `f` accepts every argument.
pub open spec fn is_function_of_one<F: Fn(i128) -> Result<i128, Error>>(f: F) -> bool {
    forall|x: i128| #[trigger] call_requires(f, (x,))
}

/// Whatever `f` returns at `x` is `g(x)`.
pub open spec fn describes_one<F: Fn(i128) -> Result<i128, Error>>(
    f: F,
    g: spec_fn(i128) -> Result<i128, Error>,
) -> bool {
    forall|x: i128, r: Result<i128, Error>| #[trigger] call_ensures(f, (x,), r) ==> r == g(x)
}

/// `f` accepts every pair of arguments.
pub open spec fn is_function_of_two<F: Fn(i128, i128) -> Result<i128, Error>>(f: F) -> bool {
    forall|x: i128, y: i128| #[trigger] call_requires(f, (x, y))
}

/// Whatever `f` returns at `(x, y)` is `g(x, y)`.
pub open spec fn describes_two<F: Fn(i128, i128) -> Result<i128, Error>>(
    f: F,
    g: spec_fn(i128, i128) -> Result<i128, Error>,
) -> bool {
    forall|x: i128, y: i128, r: Result<i128, Error>| #[trigger]
        call_ensures(f, (x, y), r) ==> r == g(x, y)
}

/// `f` accepts every triple of arguments.
pub open spec fn is_function_of_three<F: Fn(i128, i128, i128) -> Result<i128, Error>>(
    f: F,
) -> bool {
    forall|x: i128, y: i128, z: i128| #[trigger] call_requires(f, (x, y, z))
}

/// Whatever `f` returns at `(x, y, z)` is `g(x, y, z)`.
pub open spec fn describes_three<F: Fn(i128, i128, i128) -> Result<i128, Error>>(
    f: F,
    g: spec_fn(i128, i128, i128) -> Result<i128, Error>,
) -> bool {
    forall|x: i128, y: i128, z: i128, r: Result<i128, Error>| #[trigger]
        call_ensures(f, (x, y, z), r) ==> r == g(x, y, z)
}

/// Evaluates `f` at `x`.
pub fn evaluate_one<F: Fn(i128) -> Result<i128, Error>>(f: &F, x: i128) -> (r: Result<
    i128,
    Error,
>)
    requires
        is_function_of_one(*f),
    ensures
        call_ensures(*f, (x,), r),
        forall|g: spec_fn(i128) -> Result<i128, Error>| #[trigger]
            describes_one(*f, g) ==> r == g(x),
{
    f(x)
}

/// Evaluates `f` at `(x, y)`.
pub fn evaluate_two<F: Fn(i128, i128) -> Result<i128, Error>>(f: &F, x: i128, y: i128) -> (r:
    Result<i128, Error>)
    requires
        is_function_of_two(*f),
    ensures
        call_ensures(*f, (x, y), r),
        forall|g: spec_fn(i128, i128) -> Result<i128, Error>| #[trigger]
            describes_two(*f, g) ==> r == g(x, y),
{
    f(x, y)
}

/// Evaluates `f` at `(x, y, z)`.
pub fn evaluate_three<F: Fn(i128, i128, i128) -> Result<i128, Error>>(
    f: &F,
    x: i128,
    y: i128,
    z: i128,
) -> (r: Result<i128, Error>)
    requires
        is_function_of_three(*f),
    ensures
        call_ensures(*f, (x, y, z), r),
        forall|g: spec_fn(i128, i128, i128) -> Result<i128, Error>| #[trigger]
            describes_three(*f, g) ==> r == g(x, y, z),
{
    f(x, y, z)
}

} // verus!

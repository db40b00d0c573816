//! The one-dimensional weight pattern of the rule, and the bookkeeping of
//! sampled values.
use vstd::prelude::*;

use crate::engine::arithmetic::{checked_product, checked_sum, product_of, quotient_of, sum_of};
use crate::errors::Error;

verus! {

/// Three values weighted `1, 4, 1` and summed.
pub open spec fn line_sum(a: Result<i128, Error>, b: Result<i128, Error>, c: Result<i128, Error>) -> Result<
    i128,
    Error,
> {
    sum_of(sum_of(a, product_of(Ok(4), b)), c)
}

/// `a + 4 * b + c`.
pub fn checked_line_sum(a: i128, b: i128, c: i128) -> (r: Result<i128, Error>)
    ensures
        r == line_sum(Ok(a), Ok(b), Ok(c)),
{
    let middle: i128 = checked_product(4, b)?;
    let left: i128 = checked_sum(a, middle)?;
    checked_sum(left, c)
}

/// The values `f[base]`, `f[base + 1]`, `f[base + 2]` weighted `1, 4, 1` and
/// summed.
pub open spec fn row_sum(f: Seq<i128>, base: int) -> Result<i128, Error> {
    line_sum(Ok(f[base]), Ok(f[base + 1]), Ok(f[base + 2]))
}

/// The three rows of three values from `f[base]` on, each weighted and summed
/// as a row, and the row sums weighted `1, 4, 1` and summed.
pub open spec fn plane_sum(f: Seq<i128>, base: int) -> Result<i128, Error> {
    line_sum(row_sum(f, base), row_sum(f, base + 3), row_sum(f, base + 6))
}

/// The three planes of nine values of `f`, each weighted and summed as a
/// plane, and the plane sums weighted `1, 4, 1` and summed.
pub open spec fn cube_sum(f: Seq<i128>) -> Result<i128, Error> {
    line_sum(plane_sum(f, 0), plane_sum(f, 9), plane_sum(f, 18))
}

/// A row sum that can be held is `f0 + 4 * f1 + f2`.
pub proof fn lemma_row_sum(f: Seq<i128>, base: int)
    ensures
        row_sum(f, base) matches Ok(v) ==> v == f[base] + 4 * f[base + 1] + f[base + 2],
        row_sum(f, base) matches Err(e) ==> e == Error::Overflow,
{
}

/// A plane sum that can be held weighs the product of the row weights:
/// corners 1, edge midpoints 4, the centre 16.
pub proof fn lemma_plane_sum(f: Seq<i128>, base: int)
    ensures
        plane_sum(f, base) matches Ok(v) ==> v == (f[base] + f[base + 2] + f[base + 6] + f[base
            + 8]) + 4 * (f[base + 1] + f[base + 3] + f[base + 5] + f[base + 7]) + 16 * f[base
            + 4],
        plane_sum(f, base) matches Err(e) ==> e == Error::Overflow,
{
    lemma_row_sum(f, base);
    lemma_row_sum(f, base + 3);
    lemma_row_sum(f, base + 6);
}

/// A cube sum that can be held weighs the product of the row weights along
/// the three axes: corners 1, edge midpoints 4, face centres 16, the centre 64.
pub proof fn lemma_cube_sum(f: Seq<i128>)
    ensures
        cube_sum(f) matches Ok(v) ==> v == (f[0] + f[2] + f[6] + f[8] + f[18] + f[20] + f[24]
            + f[26]) + 4 * (f[1] + f[3] + f[5] + f[7] + f[9] + f[11] + f[15] + f[17] + f[19]
            + f[21] + f[23] + f[25]) + 16 * (f[4] + f[10] + f[12] + f[14] + f[16] + f[22]) + 64
            * f[13],
        cube_sum(f) matches Err(e) ==> e == Error::Overflow,
{
    lemma_plane_sum(f, 0);
    lemma_plane_sum(f, 9);
    lemma_plane_sum(f, 18);
}

/// Weighs and sums the row of three values from `f[base]` on.
pub fn checked_row_sum(f: &Vec<i128>, base: usize) -> (r: Result<i128, Error>)
    requires
        base + 3 <= f.len(),
    ensures
        r == row_sum(f@, base as int),
{
    checked_line_sum(f[base], f[base + 1], f[base + 2])
}

/// Weighs and sums the plane of nine values from `f[base]` on.
pub fn checked_plane_sum(f: &Vec<i128>, base: usize) -> (r: Result<i128, Error>)
    requires
        base + 9 <= f.len(),
    ensures
        r == plane_sum(f@, base as int),
{
    let first: i128 = checked_row_sum(f, base)?;
    let second: i128 = checked_row_sum(f, base + 3)?;
    let third: i128 = checked_row_sum(f, base + 6)?;
    checked_line_sum(first, second, third)
}

/// Weighs and sums the cube of twenty-seven values of `f`.
pub fn checked_cube_sum(f: &Vec<i128>) -> (r: Result<i128, Error>)
    requires
        f.len() == 27,
    ensures
        r == cube_sum(f@),
{
    let first: i128 = checked_plane_sum(f, 0)?;
    let second: i128 = checked_plane_sum(f, 9)?;
    let third: i128 = checked_plane_sum(f, 18)?;
    checked_line_sum(first, second, third)
}

/// `factor * value / divisor`, the quotient rounded toward zero.
pub open spec fn with_constant(value: Result<i128, Error>, factor: Result<i128, Error>, divisor: int) -> Result<
    i128,
    Error,
>
    recommends
        divisor > 0,
{
    quotient_of(product_of(factor, value), divisor)
}

/// The failure of the first sample that has one.
pub open spec fn first_failure(samples: Seq<Result<i128, Error>>) -> Option<Error>
    decreases samples.len(),
{
    if samples.len() == 0 {
        None
    } else {
        match samples[0] {
            Err(e) => Some(e),
            Ok(_) => first_failure(samples.skip(1)),
        }
    }
}

/// The values of samples none of which failed.
pub open spec fn all_values(samples: Seq<Result<i128, Error>>) -> Seq<i128> {
    Seq::new(samples.len(), |n: int| samples[n]->Ok_0)
}

/// Where the samples before `n` have values and sample `n` failed, that is
/// the first failure.
pub proof fn lemma_first_failure(samples: Seq<Result<i128, Error>>, n: int)
    requires
        0 <= n < samples.len(),
        samples[n] is Err,
        forall|m: int| 0 <= m < n ==> (#[trigger] samples[m]) is Ok,
    ensures
        first_failure(samples) == Some(samples[n]->Err_0),
    decreases n,
{
    if n > 0 {
        assert(samples[0] is Ok);
        let rest = samples.skip(1);
        assert forall|m: int| 0 <= m < n - 1 implies (#[trigger] rest[m]) is Ok by {
            assert(samples[m + 1] is Ok);
        }
        lemma_first_failure(rest, n - 1);
    }
}

/// Where every sample has a value, there is no failure.
pub proof fn lemma_all_values(samples: Seq<Result<i128, Error>>)
    requires
        forall|m: int| 0 <= m < samples.len() ==> (#[trigger] samples[m]) is Ok,
    ensures
        first_failure(samples) is None,
    decreases samples.len(),
{
    if samples.len() > 0 {
        assert(samples[0] is Ok);
        let rest = samples.skip(1);
        assert forall|m: int| 0 <= m < rest.len() implies (#[trigger] rest[m]) is Ok by {
            assert(samples[m + 1] is Ok);
        }
        lemma_all_values(rest);
    }
}

} // verus!

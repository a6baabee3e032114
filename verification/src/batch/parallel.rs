//! Parallel versions of the batch operations: embarrassingly parallel
//! fork-join fan-out over read-only slices, with no shared mutable state
//! between workers. Each driver is a trusted fan-out whose contract states
//! the same output as its sequential counterpart, relying on rayon's
//! documented guarantee that collecting a parallel iterator into a vector
//! preserves the original order.
use vstd::prelude::*;
use rayon::iter::{IndexedParallelIterator, IntoParallelRefIterator, ParallelIterator};
use crate::batch::{spec_matching_indices_from, spec_matrix_pairs_from};
use crate::matchable::Matchable;
use crate::traits::Matcher;

verus! {

/// Relies on rayon::iter::ParallelIterator::filter and collect: the
/// matchers that match, in their original order, selected in parallel.
#[verifier::external_body]
pub fn matching<'a, T, M>(value: &T, matchers: &'a [M]) -> (r: Vec<&'a M>)
    where T: Matchable + Sync, M: Matcher<T> + Sync,
    ensures
        r@.map_values(|m: &M| *m) == matchers@.filter(|m: M| m.spec_matches(*value)),
{
    matchers.par_iter().filter(|m| m.matches(value)).collect()
}

/// Relies on rayon::iter::ParallelIterator::filter and map: the indices of
/// the matchers that match, in increasing order, selected in parallel.
#[verifier::external_body]
pub fn matching_indices<T, M>(value: &T, matchers: &[M]) -> (r: Vec<usize>)
    where T: Matchable + Sync, M: Matcher<T> + Sync,
    ensures
        r@ == spec_matching_indices_from(matchers@, *value, 0),
{
    matchers.par_iter().enumerate().filter(|(_, m)| m.matches(value)).map(|(i, _)| i).collect()
}

/// Relies on rayon::iter::ParallelIterator::flat_map and collect: the
/// matching pairs of the cartesian product, in row-major order, one
/// verified `row_pairs` call per value fanned out in parallel.
#[verifier::external_body]
pub fn evaluate_matrix<T, M>(values: &[T], matchers: &[M]) -> (r: Vec<(usize, usize)>)
    where T: Matchable + Sync, M: Matcher<T> + Sync,
    ensures
        r@ == spec_matrix_pairs_from(values@, matchers@, 0),
{
    values
        .par_iter()
        .enumerate()
        .flat_map(|(vi, value)| crate::batch::row_pairs(vi, value, matchers))
        .collect()
}

/// Relies on rayon::iter::ParallelIterator::map and collect: the dense
/// boolean matrix, one verified `row_flags` call per value fanned out in
/// parallel.
#[verifier::external_body]
pub fn evaluate_matrix_full<T, M>(values: &[T], matchers: &[M]) -> (r: Vec<Vec<bool>>)
    where T: Matchable + Sync, M: Matcher<T> + Sync,
    ensures
        r@.len() == values@.len(),
        forall|i: int| 0 <= i < values@.len() ==> (#[trigger] r@[i])@.len() == matchers@.len(),
        forall|i: int, j: int|
            0 <= i < values@.len() && 0 <= j < matchers@.len() ==> (#[trigger] r@[i]@[j])
                == matchers@[j].spec_matches(values@[i]),
{
    values.par_iter().map(|value| crate::batch::row_flags(value, matchers)).collect()
}

/// Relies on rayon::iter::ParallelIterator::any: whether any matcher
/// matches, checked in parallel.
#[verifier::external_body]
pub fn any_matches<T, M>(value: &T, matchers: &[M]) -> (r: bool)
    where T: Matchable + Sync, M: Matcher<T> + Sync,
    ensures
        r == (exists|j: int|
            0 <= j < matchers@.len() && (#[trigger] matchers@[j]).spec_matches(*value)),
{
    matchers.par_iter().any(|m| m.matches(value))
}

/// Relies on rayon::iter::ParallelIterator::all: whether every matcher
/// matches, checked in parallel.
#[verifier::external_body]
pub fn all_match<T, M>(value: &T, matchers: &[M]) -> (r: bool)
    where T: Matchable + Sync, M: Matcher<T> + Sync,
    ensures
        r == (forall|j: int|
            0 <= j < matchers@.len() ==> (#[trigger] matchers@[j]).spec_matches(*value)),
{
    matchers.par_iter().all(|m| m.matches(value))
}

/// The parallel and the sequential matrix drivers return the same set of
/// matching pairs: both are pinned to the same row-major pair list, so
/// their outputs agree even as sets.
pub proof fn lemma_parallel_sequential_matrix_agree<T: Matchable, M: Matcher<T>>(
    values: Seq<T>,
    matchers: Seq<M>,
    sequential: Seq<(usize, usize)>,
    parallel_r: Seq<(usize, usize)>,
)
    requires
        values.len() <= usize::MAX,
        matchers.len() <= usize::MAX,
        sequential == spec_matrix_pairs_from(values, matchers, 0),
        parallel_r == spec_matrix_pairs_from(values, matchers, 0),
    ensures
        sequential.to_set() == parallel_r.to_set(),
        forall|p: (usize, usize)|
            #[trigger] sequential.contains(p) <==> ((p.0 as int) < values.len()
                && (p.1 as int) < matchers.len() && matchers[p.1 as int].spec_matches(
                values[p.0 as int],
            )),
{
    crate::batch::lemma_matrix_pairs_contains(values, matchers);
}

} // verus!

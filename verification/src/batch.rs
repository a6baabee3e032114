//! Batch operations for evaluating matchers against collections: which
//! matchers match one value, the full cartesian product of values and
//! matchers, and any/all predicates. Every driver's output is pinned to a
//! spec-level function of the values and the matchers, so the sequential
//! and the parallel drivers are provably interchangeable up to order.
use vstd::prelude::*;
use crate::matchable::Matchable;
use crate::traits::Matcher;

pub mod parallel;

verus! {

/// The indices at or past `i` whose matcher matches the value, in order.
pub open spec fn spec_matching_indices_from<T: Matchable, M: Matcher<T>>(
    matchers: Seq<M>,
    value: T,
    i: int,
) -> Seq<usize>
    decreases matchers.len() - i,
{
    if i < 0 || i >= matchers.len() {
        Seq::empty()
    } else if matchers[i].spec_matches(value) {
        seq![i as usize] + spec_matching_indices_from(matchers, value, i + 1)
    } else {
        spec_matching_indices_from(matchers, value, i + 1)
    }
}

/// The matching pairs of the cartesian product, row by row from value
/// index `vi`: each pair is (value index, matcher index).
pub open spec fn spec_matrix_pairs_from<T: Matchable, M: Matcher<T>>(
    values: Seq<T>,
    matchers: Seq<M>,
    vi: int,
) -> Seq<(usize, usize)>
    decreases values.len() - vi,
{
    if vi < 0 || vi >= values.len() {
        Seq::empty()
    } else {
        spec_row_pairs(matchers, values[vi], vi, 0) + spec_matrix_pairs_from(
            values,
            matchers,
            vi + 1,
        )
    }
}

/// One row of the cartesian product: the pairs for value index `vi`, over
/// the matchers at or past `mi`.
pub open spec fn spec_row_pairs<T: Matchable, M: Matcher<T>>(
    matchers: Seq<M>,
    value: T,
    vi: int,
    mi: int,
) -> Seq<(usize, usize)>
    decreases matchers.len() - mi,
{
    if mi < 0 || mi >= matchers.len() || !(0 <= vi) {
        Seq::empty()
    } else if matchers[mi].spec_matches(value) {
        seq![(vi as usize, mi as usize)] + spec_row_pairs(matchers, value, vi, mi + 1)
    } else {
        spec_row_pairs(matchers, value, vi, mi + 1)
    }
}

/// A pair is in the matrix list exactly when its indices are in range and
/// that matcher matches that value.
pub proof fn lemma_matrix_pairs_contains<T: Matchable, M: Matcher<T>>(
    values: Seq<T>,
    matchers: Seq<M>,
)
    requires
        values.len() <= usize::MAX,
        matchers.len() <= usize::MAX,
    ensures
        forall|p: (usize, usize)|
            #[trigger] spec_matrix_pairs_from(values, matchers, 0).contains(p) <==> ((p.0 as int)
                < values.len() && (p.1 as int) < matchers.len()
                && matchers[p.1 as int].spec_matches(values[p.0 as int])),
{
    assert forall|p: (usize, usize)|
        #[trigger] spec_matrix_pairs_from(values, matchers, 0).contains(p) <==> ((p.0 as int)
            < values.len() && (p.1 as int) < matchers.len()
            && matchers[p.1 as int].spec_matches(values[p.0 as int])) by {
        lemma_matrix_pairs_contains_from(values, matchers, 0, p);
    }
}

proof fn lemma_matrix_pairs_contains_from<T: Matchable, M: Matcher<T>>(
    values: Seq<T>,
    matchers: Seq<M>,
    vi: int,
    p: (usize, usize),
)
    requires
        0 <= vi <= values.len(),
        values.len() <= usize::MAX,
        matchers.len() <= usize::MAX,
    ensures
        spec_matrix_pairs_from(values, matchers, vi).contains(p) <==> (vi <= p.0 as int
            && (p.0 as int) < values.len() && (p.1 as int) < matchers.len()
            && matchers[p.1 as int].spec_matches(values[p.0 as int])),
    decreases values.len() - vi,
{
    if vi < values.len() {
        lemma_matrix_pairs_contains_from(values, matchers, vi + 1, p);
        lemma_row_pairs_contains(matchers, values[vi], vi, 0, p);
        let row = spec_row_pairs(matchers, values[vi], vi, 0);
        let rest = spec_matrix_pairs_from(values, matchers, vi + 1);
        let whole = spec_matrix_pairs_from(values, matchers, vi);
        assert(whole =~= row + rest);
        if row.contains(p) || rest.contains(p) {
            assert(whole.contains(p)) by {
                if row.contains(p) {
                    let k = choose|k: int| 0 <= k < row.len() && row[k] == p;
                    assert(whole[k] == p);
                } else {
                    let k = choose|k: int| 0 <= k < rest.len() && rest[k] == p;
                    assert(whole[row.len() + k] == p);
                }
            }
        }
        if whole.contains(p) {
            let k = choose|k: int| 0 <= k < whole.len() && whole[k] == p;
            if k < row.len() {
                assert(row[k] == p);
            } else {
                assert(rest[k - row.len()] == p);
            }
        }
    }
}

proof fn lemma_row_pairs_contains<T: Matchable, M: Matcher<T>>(
    matchers: Seq<M>,
    value: T,
    vi: int,
    mi: int,
    p: (usize, usize),
)
    requires
        0 <= vi <= usize::MAX,
        0 <= mi <= matchers.len(),
        matchers.len() <= usize::MAX,
    ensures
        spec_row_pairs(matchers, value, vi, mi).contains(p) <==> (p.0 as int == vi && mi
            <= p.1 as int && (p.1 as int) < matchers.len()
            && matchers[p.1 as int].spec_matches(value)),
    decreases matchers.len() - mi,
{
    if mi < matchers.len() {
        lemma_row_pairs_contains(matchers, value, vi, mi + 1, p);
        let rest = spec_row_pairs(matchers, value, vi, mi + 1);
        let whole = spec_row_pairs(matchers, value, vi, mi);
        if matchers[mi].spec_matches(value) {
            assert(whole =~= seq![(vi as usize, mi as usize)] + rest);
            if whole.contains(p) {
                let k = choose|k: int| 0 <= k < whole.len() && whole[k] == p;
                if k > 0 {
                    assert(rest[k - 1] == p);
                }
            }
            if p == (vi as usize, mi as usize) {
                assert(whole[0] == p);
            }
            if rest.contains(p) {
                let k = choose|k: int| 0 <= k < rest.len() && rest[k] == p;
                assert(whole[k + 1] == p);
            }
        } else {
            assert(whole =~= rest);
        }
    }
}

/// An index is in the matching-index list exactly when it is in range and
/// its matcher matches the value.
pub proof fn lemma_matching_indices_contains<T: Matchable, M: Matcher<T>>(
    matchers: Seq<M>,
    value: T,
)
    requires
        matchers.len() <= usize::MAX,
    ensures
        forall|j: usize|
            #[trigger] spec_matching_indices_from(matchers, value, 0).contains(j) <==> ((
            j as int) < matchers.len() && matchers[j as int].spec_matches(value)),
{
    assert forall|j: usize|
        #[trigger] spec_matching_indices_from(matchers, value, 0).contains(j) <==> ((j as int)
            < matchers.len() && matchers[j as int].spec_matches(value)) by {
        lemma_matching_indices_contains_from(matchers, value, 0, j);
    }
}

proof fn lemma_matching_indices_contains_from<T: Matchable, M: Matcher<T>>(
    matchers: Seq<M>,
    value: T,
    i: int,
    j: usize,
)
    requires
        0 <= i <= matchers.len(),
        matchers.len() <= usize::MAX,
    ensures
        spec_matching_indices_from(matchers, value, i).contains(j) <==> (i <= j as int
            && (j as int) < matchers.len() && matchers[j as int].spec_matches(value)),
    decreases matchers.len() - i,
{
    if i < matchers.len() {
        lemma_matching_indices_contains_from(matchers, value, i + 1, j);
        let rest = spec_matching_indices_from(matchers, value, i + 1);
        let whole = spec_matching_indices_from(matchers, value, i);
        if matchers[i].spec_matches(value) {
            assert(whole =~= seq![i as usize] + rest);
            if whole.contains(j) {
                let k = choose|k: int| 0 <= k < whole.len() && whole[k] == j;
                if k > 0 {
                    assert(rest[k - 1] == j);
                }
            }
            if j == i as usize {
                assert(whole[0] == j);
            }
            if rest.contains(j) {
                let k = choose|k: int| 0 <= k < rest.len() && rest[k] == j;
                assert(whole[k + 1] == j);
            }
        } else {
            assert(whole =~= rest);
        }
    }
}

/// Find all matchers that match a single value, in order.
pub fn matching<'a, T, M>(value: &T, matchers: &'a [M]) -> (r: Vec<&'a M>)
    where T: Matchable, M: Matcher<T>,
    ensures
        r@.map_values(|m: &M| *m) == matchers@.filter(|m: M| m.spec_matches(*value)),
{
    let ghost pred = |m: M| m.spec_matches(*value);
    let mut out: Vec<&'a M> = Vec::new();
    let mut i: usize = 0;
    proof {
        assert(matchers@.take(0).filter(pred) =~= Seq::<M>::empty());
        assert(out@.map_values(|m: &M| *m) =~= Seq::<M>::empty());
    }
    while i < matchers.len()
        invariant
            i <= matchers@.len(),
            out@.map_values(|m: &M| *m) == matchers@.take(i as int).filter(pred),
            pred == (|m: M| m.spec_matches(*value)),
        decreases matchers@.len() - i,
    {
        proof {
            let pre = matchers@.take(i as int);
            let post = matchers@.take(i as int + 1);
            assert(post.drop_last() =~= pre);
            assert(post.last() == matchers@[i as int]);
            reveal_with_fuel(Seq::filter, 2);
            assert(post.filter(pred) == if pred(post.last()) {
                pre.filter(pred).push(post.last())
            } else {
                pre.filter(pred)
            });
        }
        let m = &matchers[i];
        if m.matches(value) {
            out.push(m);
            proof {
                assert(out@.map_values(|m: &M| *m) =~= matchers@.take(i as int + 1).filter(
                    pred,
                ));
            }
        }
        i = i + 1;
    }
    proof {
        assert(matchers@.take(matchers@.len() as int) =~= matchers@);
    }
    out
}

/// Find the indices of all matchers that match a single value, in
/// increasing order.
pub fn matching_indices<T, M>(value: &T, matchers: &[M]) -> (r: Vec<usize>)
    where T: Matchable, M: Matcher<T>,
    ensures
        r@ == spec_matching_indices_from(matchers@, *value, 0),
{
    let mut out: Vec<usize> = Vec::new();
    let mut i: usize = 0;
    while i < matchers.len()
        invariant
            i <= matchers@.len(),
            out@ + spec_matching_indices_from(matchers@, *value, i as int)
                =~= spec_matching_indices_from(matchers@, *value, 0),
        decreases matchers@.len() - i,
    {
        if matchers[i].matches(value) {
            out.push(i);
            proof {
                assert(out@ + spec_matching_indices_from(matchers@, *value, i as int + 1)
                    =~= spec_matching_indices_from(matchers@, *value, 0));
            }
        }
        i = i + 1;
    }
    proof {
        assert(spec_matching_indices_from(matchers@, *value, matchers@.len() as int)
            =~= Seq::<usize>::empty());
        assert(out@ =~= spec_matching_indices_from(matchers@, *value, 0));
    }
    out
}

/// Count how many matchers match a single value.
pub fn count_matching<T, M>(value: &T, matchers: &[M]) -> (r: usize)
    where T: Matchable, M: Matcher<T>,
    ensures
        r == spec_matching_indices_from(matchers@, *value, 0).len(),
{
    let ids = matching_indices(value, matchers);
    ids.len()
}

/// Whether any matcher matches the value.
pub fn any_matches<T, M>(value: &T, matchers: &[M]) -> (r: bool)
    where T: Matchable, M: Matcher<T>,
    ensures
        r == (exists|j: int|
            0 <= j < matchers@.len() && (#[trigger] matchers@[j]).spec_matches(*value)),
{
    let mut i: usize = 0;
    while i < matchers.len()
        invariant
            i <= matchers@.len(),
            forall|j: int| 0 <= j < i ==> !(#[trigger] matchers@[j]).spec_matches(*value),
        decreases matchers@.len() - i,
    {
        if matchers[i].matches(value) {
            return true;
        }
        i = i + 1;
    }
    false
}

/// Whether every matcher matches the value.
pub fn all_match<T, M>(value: &T, matchers: &[M]) -> (r: bool)
    where T: Matchable, M: Matcher<T>,
    ensures
        r == (forall|j: int|
            0 <= j < matchers@.len() ==> (#[trigger] matchers@[j]).spec_matches(*value)),
{
    let mut i: usize = 0;
    while i < matchers.len()
        invariant
            i <= matchers@.len(),
            forall|j: int| 0 <= j < i ==> (#[trigger] matchers@[j]).spec_matches(*value),
        decreases matchers@.len() - i,
    {
        if !matchers[i].matches(value) {
            return false;
        }
        i = i + 1;
    }
    true
}

/// The matching pairs of one row of the cartesian product: the matcher
/// indices that match `value`, each paired with the value index `vi`.
pub fn row_pairs<T, M>(vi: usize, value: &T, matchers: &[M]) -> (r: Vec<(usize, usize)>)
    where T: Matchable, M: Matcher<T>,
    ensures
        r@ == spec_row_pairs(matchers@, *value, vi as int, 0),
{
    let mut out: Vec<(usize, usize)> = Vec::new();
    let mut mi: usize = 0;
    while mi < matchers.len()
        invariant
            mi <= matchers@.len(),
            out@ + spec_row_pairs(matchers@, *value, vi as int, mi as int) =~= spec_row_pairs(
                matchers@,
                *value,
                vi as int,
                0,
            ),
        decreases matchers@.len() - mi,
    {
        if matchers[mi].matches(value) {
            out.push((vi, mi));
            proof {
                assert(out@ + spec_row_pairs(matchers@, *value, vi as int, mi as int + 1)
                    =~= spec_row_pairs(matchers@, *value, vi as int, 0));
            }
        }
        mi = mi + 1;
    }
    proof {
        assert(spec_row_pairs(matchers@, *value, vi as int, matchers@.len() as int)
            =~= Seq::<(usize, usize)>::empty());
        assert(out@ =~= spec_row_pairs(matchers@, *value, vi as int, 0));
    }
    out
}

/// One row of the dense boolean matrix: each matcher's verdict on `value`,
/// in matcher order.
pub fn row_flags<T, M>(value: &T, matchers: &[M]) -> (r: Vec<bool>)
    where T: Matchable, M: Matcher<T>,
    ensures
        r@.len() == matchers@.len(),
        forall|j: int|
            0 <= j < matchers@.len() ==> (#[trigger] r@[j]) == matchers@[j].spec_matches(
                *value,
            ),
{
    let mut row: Vec<bool> = Vec::new();
    let mut mi: usize = 0;
    while mi < matchers.len()
        invariant
            mi <= matchers@.len(),
            row@.len() == mi,
            forall|j: int|
                0 <= j < mi ==> (#[trigger] row@[j]) == matchers@[j].spec_matches(*value),
        decreases matchers@.len() - mi,
    {
        let m = matchers[mi].matches(value);
        row.push(m);
        mi = mi + 1;
    }
    row
}

/// Evaluate all matchers against all values: the matching (value index,
/// matcher index) pairs, in row-major order.
pub fn evaluate_matrix<T, M>(values: &[T], matchers: &[M]) -> (r: Vec<(usize, usize)>)
    where T: Matchable, M: Matcher<T>,
    ensures
        r@ == spec_matrix_pairs_from(values@, matchers@, 0),
{
    let mut out: Vec<(usize, usize)> = Vec::new();
    let mut vi: usize = 0;
    while vi < values.len()
        invariant
            vi <= values@.len(),
            out@ + spec_matrix_pairs_from(values@, matchers@, vi as int)
                =~= spec_matrix_pairs_from(values@, matchers@, 0),
        decreases values@.len() - vi,
    {
        let ghost out_before = out@;
        let mut row = row_pairs(vi, &values[vi], matchers);
        let ghost row_view = row@;
        out.append(&mut row);
        proof {
            assert(out@ =~= out_before + row_view);
            assert(out@ + spec_matrix_pairs_from(values@, matchers@, vi as int + 1)
                =~= spec_matrix_pairs_from(values@, matchers@, 0));
        }
        vi = vi + 1;
    }
    proof {
        assert(spec_matrix_pairs_from(values@, matchers@, values@.len() as int)
            =~= Seq::<(usize, usize)>::empty());
        assert(out@ =~= spec_matrix_pairs_from(values@, matchers@, 0));
    }
    out
}

/// Evaluate all matchers against all values, as a dense boolean matrix:
/// row `i`, column `j` says whether matcher `j` matches value `i`.
pub fn evaluate_matrix_full<T, M>(values: &[T], matchers: &[M]) -> (r: Vec<Vec<bool>>)
    where T: Matchable, M: Matcher<T>,
    ensures
        r@.len() == values@.len(),
        forall|i: int| 0 <= i < values@.len() ==> (#[trigger] r@[i])@.len() == matchers@.len(),
        forall|i: int, j: int|
            0 <= i < values@.len() && 0 <= j < matchers@.len() ==> (#[trigger] r@[i]@[j])
                == matchers@[j].spec_matches(values@[i]),
{
    let mut out: Vec<Vec<bool>> = Vec::new();
    let mut vi: usize = 0;
    while vi < values.len()
        invariant
            vi <= values@.len(),
            out@.len() == vi,
            forall|i: int| 0 <= i < vi ==> (#[trigger] out@[i])@.len() == matchers@.len(),
            forall|i: int, j: int|
                0 <= i < vi && 0 <= j < matchers@.len() ==> (#[trigger] out@[i]@[j])
                    == matchers@[j].spec_matches(values@[i]),
        decreases values@.len() - vi,
    {
        let row = row_flags(&values[vi], matchers);
        out.push(row);
        vi = vi + 1;
    }
    out
}

/// The first matching matcher index at or past `mi` for a value.
pub open spec fn spec_first_match<T: Matchable, M: Matcher<T>>(
    matchers: Seq<M>,
    value: T,
    mi: int,
) -> Option<usize>
    decreases matchers.len() - mi,
{
    if mi < 0 || mi >= matchers.len() {
        None
    } else if matchers[mi].spec_matches(value) {
        Some(mi as usize)
    } else {
        spec_first_match(matchers, value, mi + 1)
    }
}

/// The (value index, first matching matcher index) pairs from value `vi`,
/// for the values that have at least one match.
pub open spec fn spec_first_matching_from<T: Matchable, M: Matcher<T>>(
    values: Seq<T>,
    matchers: Seq<M>,
    vi: int,
) -> Seq<(usize, usize)>
    decreases values.len() - vi,
{
    if vi < 0 || vi >= values.len() {
        Seq::empty()
    } else {
        match spec_first_match(matchers, values[vi], 0) {
            Some(j) => seq![(vi as usize, j)] + spec_first_matching_from(
                values,
                matchers,
                vi + 1,
            ),
            None => spec_first_matching_from(values, matchers, vi + 1),
        }
    }
}

fn first_match_index<T, M>(value: &T, matchers: &[M]) -> (r: Option<usize>)
    where T: Matchable, M: Matcher<T>,
    ensures
        r == spec_first_match(matchers@, *value, 0),
{
    let mut i: usize = 0;
    while i < matchers.len()
        invariant
            i <= matchers@.len(),
            spec_first_match(matchers@, *value, 0) == spec_first_match(
                matchers@,
                *value,
                i as int,
            ),
        decreases matchers@.len() - i,
    {
        if matchers[i].matches(value) {
            return Some(i);
        }
        i = i + 1;
    }
    None
}

/// For each value, the first matcher that matches it, if any: pairs of
/// (value index, matcher index), in increasing value order.
pub fn first_matching<T, M>(values: &[T], matchers: &[M]) -> (r: Vec<(usize, usize)>)
    where T: Matchable, M: Matcher<T>,
    ensures
        r@ == spec_first_matching_from(values@, matchers@, 0),
{
    let mut out: Vec<(usize, usize)> = Vec::new();
    let mut vi: usize = 0;
    while vi < values.len()
        invariant
            vi <= values@.len(),
            out@ + spec_first_matching_from(values@, matchers@, vi as int)
                =~= spec_first_matching_from(values@, matchers@, 0),
        decreases values@.len() - vi,
    {
        match first_match_index(&values[vi], matchers) {
            Some(j) => {
                out.push((vi, j));
                proof {
                    assert(out@ + spec_first_matching_from(values@, matchers@, vi as int + 1)
                        =~= spec_first_matching_from(values@, matchers@, 0));
                }
            },
            None => {},
        }
        vi = vi + 1;
    }
    proof {
        assert(spec_first_matching_from(values@, matchers@, values@.len() as int)
            =~= Seq::<(usize, usize)>::empty());
        assert(out@ =~= spec_first_matching_from(values@, matchers@, 0));
    }
    out
}

} // verus!

//! The trait hierarchy for matchers: anything that can match a value,
//! extended evaluation with detailed results, per-condition predicates, and
//! batch convenience methods that every matcher gets for free.
use vstd::prelude::*;
use crate::condition::{Condition, ConditionMode};
use crate::evaluators::spec_eval_condition;
use crate::matchable::Matchable;
use crate::result::{ConditionResult, ConditionResultV};

verus! {

/// Core trait for any type that can match against a value. What `matches`
/// returns is pinned to the implementation's spec-level predicate, so a
/// matcher's verdict is a pure function of the matcher and the record.
pub trait Matcher<T: Matchable> {
    /// Model: whether this matcher matches the value.
    spec fn spec_matches(&self, value: T) -> bool;

    /// Model: the matcher's combination mode.
    spec fn spec_mode(&self) -> ConditionMode;

    /// Check if this matcher matches the given value.
    fn matches(&self, value: &T) -> (r: bool)
        ensures
            r == self.spec_matches(*value),
    ;

    /// Get the logical combination mode (AND, OR, XOR).
    fn mode(&self) -> (r: ConditionMode)
        ensures
            r == self.spec_mode(),
    ;
}

/// Extended trait for matchers that provide detailed evaluation results.
/// The output shape is the implementation's own; each implementation pins
/// its `evaluate` with its own postconditions.
pub trait Evaluate<T: Matchable>: Matcher<T> {
    /// The result type for detailed evaluation.
    type Output;

    /// Evaluate with full details (field values, errors, descriptions).
    fn evaluate(&self, value: &T) -> Self::Output;
}

/// Trait for individual condition evaluation.
pub trait Predicate<T: Matchable> {
    /// Model: the verdict of this predicate on the value.
    spec fn spec_test(&self, value: T) -> bool;

    /// Model: the full result row of this predicate on the value.
    spec fn spec_row(&self, value: T) -> ConditionResultV;

    /// Test this predicate against a value.
    fn test(&self, value: &T) -> (r: bool)
        ensures
            r == self.spec_test(*value),
    ;

    /// Test with detailed result information.
    fn test_detailed(&self, value: &T) -> (r: ConditionResult)
        ensures
            r@ == self.spec_row(*value),
            r.passed == self.spec_test(*value),
    ;
}

impl<T: Matchable> Predicate<T> for Condition<T> {
    open spec fn spec_test(&self, value: T) -> bool {
        spec_eval_condition(*self, value).passed
    }

    open spec fn spec_row(&self, value: T) -> ConditionResultV {
        spec_eval_condition(*self, value)
    }

    fn test(&self, value: &T) -> (r: bool) {
        crate::evaluators::evaluate_condition(self, value).passed
    }

    fn test_detailed(&self, value: &T) -> (r: ConditionResult) {
        crate::evaluators::evaluate_condition(self, value)
    }
}

/// References to matchers are matchers themselves.
impl<T: Matchable, M: Matcher<T>> Matcher<T> for &M {
    open spec fn spec_matches(&self, value: T) -> bool {
        (**self).spec_matches(value)
    }

    open spec fn spec_mode(&self) -> ConditionMode {
        (**self).spec_mode()
    }

    fn matches(&self, value: &T) -> (r: bool) {
        (*self).matches(value)
    }

    fn mode(&self) -> (r: ConditionMode) {
        (*self).mode()
    }
}

/// Extension trait providing batch operations over slices of values; it is
/// implemented for every matcher.
pub trait MatcherExt<T: Matchable>: Matcher<T> {
    /// Filter values, returning references to those that match, in order.
    fn filter<'a>(&self, values: &'a [T]) -> (r: Vec<&'a T>)
        ensures
            r@.map_values(|x: &T| *x) == values@.filter(|v: T| self.spec_matches(v)),
    ;

    /// Check all values, returning one verdict per value, in order.
    fn matches_all(&self, values: &[T]) -> (r: Vec<bool>)
        ensures
            r@.len() == values@.len(),
            forall|i: int| 0 <= i < values@.len() ==> r@[i] == self.spec_matches(
                #[trigger] values@[i],
            ),
    ;

}

impl<T: Matchable, M: Matcher<T>> MatcherExt<T> for M {
    fn filter<'a>(&self, values: &'a [T]) -> (r: Vec<&'a T>) {
        let ghost pred = |v: T| self.spec_matches(v);
        let mut out: Vec<&'a T> = Vec::new();
        let mut i: usize = 0;
        proof {
            assert(values@.take(0).filter(pred) =~= Seq::<T>::empty());
            assert(out@.map_values(|x: &T| *x) =~= Seq::<T>::empty());
        }
        while i < values.len()
            invariant
                i <= values@.len(),
                out@.map_values(|x: &T| *x) == values@.take(i as int).filter(pred),
                pred == (|v: T| self.spec_matches(v)),
            decreases values@.len() - i,
        {
            proof {
                let pre = values@.take(i as int);
                let post = values@.take(i as int + 1);
                assert(post.drop_last() =~= pre);
                assert(post.last() == values@[i as int]);
                reveal_with_fuel(Seq::filter, 2);
                assert(post.filter(pred) == if pred(post.last()) {
                    pre.filter(pred).push(post.last())
                } else {
                    pre.filter(pred)
                });
            }
            let item = &values[i];
            if self.matches(item) {
                out.push(item);
                proof {
                    assert(out@.map_values(|x: &T| *x) =~= values@.take(i as int + 1).filter(
                        pred,
                    ));
                }
            }
            i = i + 1;
        }
        proof {
            assert(values@.take(values@.len() as int) =~= values@);
        }
        out
    }

    fn matches_all(&self, values: &[T]) -> (r: Vec<bool>) {
        let mut out: Vec<bool> = Vec::new();
        let mut i: usize = 0;
        while i < values.len()
            invariant
                i <= values@.len(),
                out@.len() == i,
                forall|j: int| 0 <= j < i ==> out@[j] == self.spec_matches(
                    #[trigger] values@[j],
                ),
            decreases values@.len() - i,
        {
            let m = self.matches(&values[i]);
            out.push(m);
            i = i + 1;
        }
        out
    }

}

} // verus!

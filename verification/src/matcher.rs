//! The classic matcher surface: a matcher struct whose `run` methods
//! return a `Result` for API shape, although no evaluation path inside
//! them actually fails.
use vstd::prelude::*;
use crate::condition::{Condition, ConditionMode};
use crate::evaluators::{evaluate_with_rows, spec_conditions_matched, spec_rows};

pub use crate::builder::{field, FieldConditionBuilder};
pub use crate::condition::ConditionMode as MatcherMode;
pub use crate::condition::{ConditionOperator, ConditionSelector};
pub use crate::error::MatchError;
pub use crate::matchable::Matchable;
pub use crate::result::{ConditionResult, MatchResult};

verus! {

/// The main matcher struct: holds conditions and evaluates them against
/// values under one combination mode.
pub struct Matcher<T: Matchable> {
    /// The logical combination mode (AND, OR, XOR).
    pub mode: ConditionMode,
    /// The conditions to evaluate, in order.
    pub conditions: Vec<Condition<T>>,
}

impl<T: Matchable> Matcher<T> {
    /// Create a new matcher with the specified mode.
    pub fn new(mode: ConditionMode) -> (r: Self)
        ensures
            r.mode == mode,
            r.conditions@.len() == 0,
    {
        Matcher { mode, conditions: Vec::new() }
    }

    /// Create a new matcher with AND mode.
    pub fn and() -> (r: Self)
        ensures
            r.mode == ConditionMode::AND,
            r.conditions@.len() == 0,
    {
        Self::new(ConditionMode::AND)
    }

    /// Create a new matcher with OR mode.
    pub fn or() -> (r: Self)
        ensures
            r.mode == ConditionMode::OR,
            r.conditions@.len() == 0,
    {
        Self::new(ConditionMode::OR)
    }

    /// Create a new matcher with XOR mode.
    pub fn xor() -> (r: Self)
        ensures
            r.mode == ConditionMode::XOR,
            r.conditions@.len() == 0,
    {
        Self::new(ConditionMode::XOR)
    }

    /// Add a condition to this matcher.
    pub fn add_condition(&mut self, condition: Condition<T>)
        ensures
            final(self).mode == old(self).mode,
            final(self).conditions@ == old(self).conditions@.push(condition),
    {
        self.conditions.push(condition);
    }

    /// Add multiple conditions at once, in order.
    pub fn add_conditions(&mut self, conditions: Vec<Condition<T>>)
        ensures
            final(self).mode == old(self).mode,
            final(self).conditions@ == old(self).conditions@ + conditions@,
    {
        let mut rest = conditions;
        self.conditions.append(&mut rest);
    }

    /// Run the matcher and return the boolean verdict. The `Result` wrapper
    /// is kept for API shape: every input returns `Ok`.
    pub fn run(&self, value: &T) -> (r: Result<bool, MatchError>)
        ensures
            r is Ok,
            r matches Ok(m) ==> m == spec_conditions_matched(self.mode, self.conditions@, *value),
    {
        let detailed = self.run_detailed(value);
        match detailed {
            Ok(result) => Ok(result.matched),
            Err(e) => Err(e),
        }
    }

    /// Run the matcher and return detailed results for each condition. The
    /// `Result` wrapper is kept for API shape: every input returns `Ok`.
    pub fn run_detailed(&self, value: &T) -> (r: Result<MatchResult, MatchError>)
        ensures
            r is Ok,
            r matches Ok(m) ==> {
                &&& m@.matched == spec_conditions_matched(self.mode, self.conditions@, *value)
                &&& m@.condition_results == spec_rows(self.conditions@, *value)
                &&& m@.mode == self.mode
            },
    {
        let (matched, rows) = evaluate_with_rows(&self.mode, &self.conditions, value);
        Ok(MatchResult { matched, condition_results: rows, mode: self.mode })
    }
}

/// A builder for creating matchers with a fluent API.
pub struct MatcherBuilder<T: Matchable> {
    mode: ConditionMode,
    conditions: Vec<Condition<T>>,
}

impl<T: Matchable> MatcherBuilder<T> {
    /// Model: the mode chosen so far.
    pub closed spec fn spec_mode(&self) -> ConditionMode {
        self.mode
    }

    /// Model: the conditions collected so far, in order.
    pub closed spec fn spec_conditions(&self) -> Seq<Condition<T>> {
        self.conditions@
    }

    /// Create a new builder with the default AND mode.
    pub fn new() -> (r: Self)
        ensures
            r.spec_mode() == ConditionMode::AND,
            r.spec_conditions().len() == 0,
    {
        MatcherBuilder { mode: ConditionMode::AND, conditions: Vec::new() }
    }

    /// Set the matching mode.
    pub fn mode(self, mode: ConditionMode) -> (r: Self)
        ensures
            r.spec_mode() == mode,
            r.spec_conditions() == self.spec_conditions(),
    {
        MatcherBuilder { mode, conditions: self.conditions }
    }

    /// Add a condition that the whole value equals the expected value.
    pub fn value_equals(self, expected: T) -> (r: Self)
        ensures
            r.spec_mode() == self.spec_mode(),
            r.spec_conditions() == self.spec_conditions().push(
                Condition {
                    operator: ConditionOperator::Equals,
                    selector: ConditionSelector::Value(expected),
                },
            ),
    {
        let mut conditions = self.conditions;
        conditions.push(
            Condition {
                operator: ConditionOperator::Equals,
                selector: ConditionSelector::Value(expected),
            },
        );
        MatcherBuilder { mode: self.mode, conditions }
    }

    /// Add a condition that the whole value does not equal the expected
    /// value.
    pub fn value_not_equals(self, expected: T) -> (r: Self)
        ensures
            r.spec_mode() == self.spec_mode(),
            r.spec_conditions() == self.spec_conditions().push(
                Condition {
                    operator: ConditionOperator::NotEquals,
                    selector: ConditionSelector::Value(expected),
                },
            ),
    {
        let mut conditions = self.conditions;
        conditions.push(
            Condition {
                operator: ConditionOperator::NotEquals,
                selector: ConditionSelector::Value(expected),
            },
        );
        MatcherBuilder { mode: self.mode, conditions }
    }

    /// Add a length condition under the given operator.
    pub fn length(self, len: usize, operator: ConditionOperator) -> (r: Self)
        ensures
            r.spec_mode() == self.spec_mode(),
            r.spec_conditions() == self.spec_conditions().push(
                Condition { operator, selector: ConditionSelector::Length(len) },
            ),
    {
        let mut conditions = self.conditions;
        conditions.push(Condition { operator, selector: ConditionSelector::Length(len) });
        MatcherBuilder { mode: self.mode, conditions }
    }

    /// Add a condition that the length equals the expected value.
    pub fn length_equals(self, len: usize) -> (r: Self)
        ensures
            r.spec_mode() == self.spec_mode(),
            r.spec_conditions() == self.spec_conditions().push(
                Condition {
                    operator: ConditionOperator::Equals,
                    selector: ConditionSelector::Length(len),
                },
            ),
    {
        self.length(len, ConditionOperator::Equals)
    }

    /// Add a condition that the length is at least the expected value.
    pub fn length_gte(self, len: usize) -> (r: Self)
        ensures
            r.spec_mode() == self.spec_mode(),
            r.spec_conditions() == self.spec_conditions().push(
                Condition {
                    operator: ConditionOperator::GreaterThanOrEqual,
                    selector: ConditionSelector::Length(len),
                },
            ),
    {
        self.length(len, ConditionOperator::GreaterThanOrEqual)
    }

    /// Add a condition that the length is at most the expected value.
    pub fn length_lte(self, len: usize) -> (r: Self)
        ensures
            r.spec_mode() == self.spec_mode(),
            r.spec_conditions() == self.spec_conditions().push(
                Condition {
                    operator: ConditionOperator::LessThanOrEqual,
                    selector: ConditionSelector::Length(len),
                },
            ),
    {
        self.length(len, ConditionOperator::LessThanOrEqual)
    }

    /// Add a raw condition.
    pub fn condition(self, condition: Condition<T>) -> (r: Self)
        ensures
            r.spec_mode() == self.spec_mode(),
            r.spec_conditions() == self.spec_conditions().push(condition),
    {
        let mut conditions = self.conditions;
        conditions.push(condition);
        MatcherBuilder { mode: self.mode, conditions }
    }

    /// Build the matcher.
    pub fn build(self) -> (r: Matcher<T>)
        ensures
            r.mode == self.spec_mode(),
            r.conditions@ == self.spec_conditions(),
    {
        Matcher { mode: self.mode, conditions: self.conditions }
    }
}

impl<T: Matchable> Default for MatcherBuilder<T> {
    /// The default builder: AND mode, no conditions.
    fn default() -> (r: Self)
        ensures
            r.spec_mode() == ConditionMode::AND,
            r.spec_conditions().len() == 0,
    {
        MatcherBuilder::new()
    }
}

} // verus!

//! Concrete matcher types built from programmatic rules.
use vstd::prelude::*;
use crate::condition::{Condition, ConditionMode};
use crate::evaluators::{evaluate_with_rows, spec_conditions_matched, spec_rows,
    conditions_matched};
use crate::matchable::Matchable;
use crate::result::MatchResult;
use crate::traits::{Evaluate, Matcher};

verus! {

/// A rule-based matcher: an ordered list of conditions folded under one
/// combination mode.
pub struct RuleMatcher<T: Matchable> {
    /// The logical combination mode (AND, OR, XOR).
    pub mode: ConditionMode,
    /// The conditions to evaluate, in order.
    pub conditions: Vec<Condition<T>>,
}

impl<T: Matchable> RuleMatcher<T> {
    /// Create a new matcher with the specified mode and no conditions.
    pub fn new(mode: ConditionMode) -> (r: Self)
        ensures
            r.mode == mode,
            r.conditions@.len() == 0,
    {
        RuleMatcher { mode, conditions: Vec::new() }
    }

    /// Create a new matcher with AND mode.
    pub fn and() -> (r: Self)
        ensures
            r.mode == ConditionMode::AND,
            r.conditions@.len() == 0,
    {
        Self::new(ConditionMode::AND)
    }

    /// Create a new matcher with OR mode.
    pub fn or() -> (r: Self)
        ensures
            r.mode == ConditionMode::OR,
            r.conditions@.len() == 0,
    {
        Self::new(ConditionMode::OR)
    }

    /// Create a new matcher with XOR mode.
    pub fn xor() -> (r: Self)
        ensures
            r.mode == ConditionMode::XOR,
            r.conditions@.len() == 0,
    {
        Self::new(ConditionMode::XOR)
    }

    /// Add a condition to this matcher.
    pub fn add_condition(&mut self, condition: Condition<T>)
        ensures
            final(self).mode == old(self).mode,
            final(self).conditions@ == old(self).conditions@.push(condition),
    {
        self.conditions.push(condition);
    }

    /// Add multiple conditions at once, in order.
    pub fn add_conditions(&mut self, conditions: Vec<Condition<T>>)
        ensures
            final(self).mode == old(self).mode,
            final(self).conditions@ == old(self).conditions@ + conditions@,
    {
        let mut rest = conditions;
        self.conditions.append(&mut rest);
    }
}

impl<T: Matchable> Matcher<T> for RuleMatcher<T> {
    /// Whether the conditions, combined under the mode, accept the value.
    open spec fn spec_matches(&self, value: T) -> bool {
        spec_conditions_matched(self.mode, self.conditions@, value)
    }

    open spec fn spec_mode(&self) -> ConditionMode {
        self.mode
    }

    fn matches(&self, value: &T) -> (r: bool) {
        conditions_matched(&self.mode, &self.conditions, value)
    }

    fn mode(&self) -> (r: ConditionMode) {
        self.mode
    }
}

impl<T: Matchable> Evaluate<T> for RuleMatcher<T> {
    type Output = MatchResult;

    /// Evaluate with full details: one row per condition, in order, and
    /// the folded verdict.
    fn evaluate(&self, value: &T) -> (r: MatchResult)
        ensures
            r@.matched == spec_conditions_matched(self.mode, self.conditions@, *value),
            r@.condition_results == spec_rows(self.conditions@, *value),
            r@.mode == self.mode,
    {
        let (matched, rows) = evaluate_with_rows(&self.mode, &self.conditions, value);
        MatchResult { matched, condition_results: rows, mode: self.mode }
    }
}

} // verus!

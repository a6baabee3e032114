//! Builder pattern for creating matchers and field conditions.
use vstd::prelude::*;
use crate::condition::{Condition, ConditionMode, ConditionOperator, ConditionSelector};
use crate::matchable::Matchable;
use crate::matchers::RuleMatcher;
use crate::scalar::Scalar;

verus! {

/// A builder for creating rule matchers with a fluent API.
pub struct MatcherBuilder<T: Matchable> {
    mode: ConditionMode,
    conditions: Vec<Condition<T>>,
}

impl<T: Matchable> MatcherBuilder<T> {
    /// Model: the mode chosen so far.
    pub closed spec fn spec_mode(&self) -> ConditionMode {
        self.mode
    }

    /// Model: the conditions collected so far, in order.
    pub closed spec fn spec_conditions(&self) -> Seq<Condition<T>> {
        self.conditions@
    }

    /// Create a new builder with the default AND mode.
    pub fn new() -> (r: Self)
        ensures
            r.spec_mode() == ConditionMode::AND,
            r.spec_conditions().len() == 0,
    {
        MatcherBuilder { mode: ConditionMode::AND, conditions: Vec::new() }
    }

    /// Set the matching mode.
    pub fn mode(self, mode: ConditionMode) -> (r: Self)
        ensures
            r.spec_mode() == mode,
            r.spec_conditions() == self.spec_conditions(),
    {
        MatcherBuilder { mode, conditions: self.conditions }
    }

    /// Add a condition that the whole value equals the expected value.
    pub fn value_equals(self, expected: T) -> (r: Self)
        ensures
            r.spec_mode() == self.spec_mode(),
            r.spec_conditions() == self.spec_conditions().push(
                Condition {
                    operator: ConditionOperator::Equals,
                    selector: ConditionSelector::Value(expected),
                },
            ),
    {
        let mut conditions = self.conditions;
        conditions.push(
            Condition {
                operator: ConditionOperator::Equals,
                selector: ConditionSelector::Value(expected),
            },
        );
        MatcherBuilder { mode: self.mode, conditions }
    }

    /// Add a condition that the whole value does not equal the expected
    /// value.
    pub fn value_not_equals(self, expected: T) -> (r: Self)
        ensures
            r.spec_mode() == self.spec_mode(),
            r.spec_conditions() == self.spec_conditions().push(
                Condition {
                    operator: ConditionOperator::NotEquals,
                    selector: ConditionSelector::Value(expected),
                },
            ),
    {
        let mut conditions = self.conditions;
        conditions.push(
            Condition {
                operator: ConditionOperator::NotEquals,
                selector: ConditionSelector::Value(expected),
            },
        );
        MatcherBuilder { mode: self.mode, conditions }
    }

    /// Add a length condition under the given operator.
    pub fn length(self, len: usize, operator: ConditionOperator) -> (r: Self)
        ensures
            r.spec_mode() == self.spec_mode(),
            r.spec_conditions() == self.spec_conditions().push(
                Condition { operator, selector: ConditionSelector::Length(len) },
            ),
    {
        let mut conditions = self.conditions;
        conditions.push(Condition { operator, selector: ConditionSelector::Length(len) });
        MatcherBuilder { mode: self.mode, conditions }
    }

    /// Add a condition that the length equals the expected value.
    pub fn length_equals(self, len: usize) -> (r: Self)
        ensures
            r.spec_mode() == self.spec_mode(),
            r.spec_conditions() == self.spec_conditions().push(
                Condition {
                    operator: ConditionOperator::Equals,
                    selector: ConditionSelector::Length(len),
                },
            ),
    {
        self.length(len, ConditionOperator::Equals)
    }

    /// Add a condition that the length is at least the expected value.
    pub fn length_gte(self, len: usize) -> (r: Self)
        ensures
            r.spec_mode() == self.spec_mode(),
            r.spec_conditions() == self.spec_conditions().push(
                Condition {
                    operator: ConditionOperator::GreaterThanOrEqual,
                    selector: ConditionSelector::Length(len),
                },
            ),
    {
        self.length(len, ConditionOperator::GreaterThanOrEqual)
    }

    /// Add a condition that the length is at most the expected value.
    pub fn length_lte(self, len: usize) -> (r: Self)
        ensures
            r.spec_mode() == self.spec_mode(),
            r.spec_conditions() == self.spec_conditions().push(
                Condition {
                    operator: ConditionOperator::LessThanOrEqual,
                    selector: ConditionSelector::Length(len),
                },
            ),
    {
        self.length(len, ConditionOperator::LessThanOrEqual)
    }

    /// Add a raw condition.
    pub fn condition(self, condition: Condition<T>) -> (r: Self)
        ensures
            r.spec_mode() == self.spec_mode(),
            r.spec_conditions() == self.spec_conditions().push(condition),
    {
        let mut conditions = self.conditions;
        conditions.push(condition);
        MatcherBuilder { mode: self.mode, conditions }
    }

    /// Build the matcher.
    pub fn build(self) -> (r: RuleMatcher<T>)
        ensures
            r.mode == self.spec_mode(),
            r.conditions@ == self.spec_conditions(),
    {
        RuleMatcher { mode: self.mode, conditions: self.conditions }
    }
}

impl<T: Matchable> Default for MatcherBuilder<T> {
    /// The default builder: AND mode, no conditions.
    fn default() -> (r: Self)
        ensures
            r.spec_mode() == ConditionMode::AND,
            r.spec_conditions().len() == 0,
    {
        MatcherBuilder::new()
    }
}

/// Builder for field-based conditions.
pub struct FieldConditionBuilder<T> {
    field: String,
    _marker: core::marker::PhantomData<T>,
}

impl<T: Matchable> FieldConditionBuilder<T> {
    /// Model: the field name this builder targets.
    pub closed spec fn spec_field(&self) -> Seq<char> {
        self.field@
    }

    /// Create a new field condition builder for the given field.
    pub fn new(field: &str) -> (r: Self)
        ensures
            r.spec_field() == field@,
    {
        FieldConditionBuilder { field: field.to_owned(), _marker: core::marker::PhantomData }
    }

    /// Field equals value.
    pub fn equals(self, value: Scalar) -> (r: Condition<T>)
        ensures
            r.operator == ConditionOperator::Equals,
            r.selector matches ConditionSelector::FieldValue(n, v) && n@ == self.spec_field()
                && v == value,
    {
        Condition {
            operator: ConditionOperator::Equals,
            selector: ConditionSelector::FieldValue(self.field, value),
        }
    }

    /// Field not equals value.
    pub fn not_equals(self, value: Scalar) -> (r: Condition<T>)
        ensures
            r.operator == ConditionOperator::NotEquals,
            r.selector matches ConditionSelector::FieldValue(n, v) && n@ == self.spec_field()
                && v == value,
    {
        Condition {
            operator: ConditionOperator::NotEquals,
            selector: ConditionSelector::FieldValue(self.field, value),
        }
    }

    /// Field greater than value.
    pub fn gt(self, value: Scalar) -> (r: Condition<T>)
        ensures
            r.operator == ConditionOperator::GreaterThan,
            r.selector matches ConditionSelector::FieldValue(n, v) && n@ == self.spec_field()
                && v == value,
    {
        Condition {
            operator: ConditionOperator::GreaterThan,
            selector: ConditionSelector::FieldValue(self.field, value),
        }
    }

    /// Field greater than or equal value.
    pub fn gte(self, value: Scalar) -> (r: Condition<T>)
        ensures
            r.operator == ConditionOperator::GreaterThanOrEqual,
            r.selector matches ConditionSelector::FieldValue(n, v) && n@ == self.spec_field()
                && v == value,
    {
        Condition {
            operator: ConditionOperator::GreaterThanOrEqual,
            selector: ConditionSelector::FieldValue(self.field, value),
        }
    }

    /// Field less than value.
    pub fn lt(self, value: Scalar) -> (r: Condition<T>)
        ensures
            r.operator == ConditionOperator::LessThan,
            r.selector matches ConditionSelector::FieldValue(n, v) && n@ == self.spec_field()
                && v == value,
    {
        Condition {
            operator: ConditionOperator::LessThan,
            selector: ConditionSelector::FieldValue(self.field, value),
        }
    }

    /// Field less than or equal value.
    pub fn lte(self, value: Scalar) -> (r: Condition<T>)
        ensures
            r.operator == ConditionOperator::LessThanOrEqual,
            r.selector matches ConditionSelector::FieldValue(n, v) && n@ == self.spec_field()
                && v == value,
    {
        Condition {
            operator: ConditionOperator::LessThanOrEqual,
            selector: ConditionSelector::FieldValue(self.field, value),
        }
    }

    /// Field contains substring (for string fields).
    pub fn contains(self, value: Scalar) -> (r: Condition<T>)
        ensures
            r.operator == ConditionOperator::Contains,
            r.selector matches ConditionSelector::FieldValue(n, v) && n@ == self.spec_field()
                && v == value,
    {
        Condition {
            operator: ConditionOperator::Contains,
            selector: ConditionSelector::FieldValue(self.field, value),
        }
    }

    /// Field starts with prefix (for string fields).
    pub fn starts_with(self, value: Scalar) -> (r: Condition<T>)
        ensures
            r.operator == ConditionOperator::StartsWith,
            r.selector matches ConditionSelector::FieldValue(n, v) && n@ == self.spec_field()
                && v == value,
    {
        Condition {
            operator: ConditionOperator::StartsWith,
            selector: ConditionSelector::FieldValue(self.field, value),
        }
    }

    /// Field ends with suffix (for string fields).
    pub fn ends_with(self, value: Scalar) -> (r: Condition<T>)
        ensures
            r.operator == ConditionOperator::EndsWith,
            r.selector matches ConditionSelector::FieldValue(n, v) && n@ == self.spec_field()
                && v == value,
    {
        Condition {
            operator: ConditionOperator::EndsWith,
            selector: ConditionSelector::FieldValue(self.field, value),
        }
    }
}

/// Convenience function to create a field condition builder.
pub fn field<T: Matchable>(name: &str) -> (r: FieldConditionBuilder<T>)
    ensures
        r.spec_field() == name@,
{
    FieldConditionBuilder::new(name)
}

} // verus!

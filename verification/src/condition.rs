//! The condition data model: operators, combination modes, selectors, and
//! the recursive group tree.
use vstd::prelude::*;
use crate::scalar::Scalar;

verus! {

/// Operators for comparing values in conditions.
#[derive(Clone, Copy, PartialEq, Eq, Structural, Hash, Debug)]
pub enum ConditionOperator {
    /// Exact equality check.
    Equals,
    /// Inequality check.
    NotEquals,
    /// Greater than comparison (numeric kinds, strings, characters).
    GreaterThan,
    /// Less than comparison.
    LessThan,
    /// Greater than or equal comparison.
    GreaterThanOrEqual,
    /// Less than or equal comparison.
    LessThanOrEqual,
    /// String contains substring.
    Contains,
    /// String does not contain substring.
    NotContains,
    /// String starts with prefix.
    StartsWith,
    /// String ends with suffix.
    EndsWith,
    /// String matches a regular expression pattern.
    Regex,
    /// Check if value is None/null.
    IsNone,
    /// Check if value is Some/present.
    IsSome,
    /// Check if collection is empty.
    IsEmpty,
    /// Check if collection is not empty.
    IsNotEmpty,
}

/// Mode for combining multiple condition results.
#[derive(Clone, Copy, PartialEq, Eq, Structural, Hash, Debug)]
pub enum ConditionMode {
    /// All conditions must match; an empty set matches.
    AND,
    /// At least one condition must match; an empty set does not.
    OR,
    /// Exactly one condition must match.
    XOR,
}

impl Default for ConditionMode {
    /// The default mode is AND.
    fn default() -> (r: Self)
        ensures
            r == ConditionMode::AND,
    {
        ConditionMode::AND
    }
}

/// Selectors for targeting what a condition checks.
pub enum ConditionSelector<T> {
    /// Check the length of a string or collection.
    Length(usize),
    /// Check the type name.
    Type(String),
    /// Compare against a whole value of the record's own type.
    Value(T),
    /// Check a field value by name.
    FieldValue(String, Scalar),
    /// Check a nested field path (the segment names, in order).
    FieldPath(Vec<String>, Scalar),
    /// Negate a condition (inverts the result).
    Not(Box<Condition<T>>),
    /// An inlined child group, combined under its own mode.
    Nested(Group<T>),
}

/// A single condition to evaluate: a selector under an operator.
pub struct Condition<T> {
    pub operator: ConditionOperator,
    pub selector: ConditionSelector<T>,
}

/// A boolean combination of conditions and sub-groups: the rules and the
/// nested child groups are folded together under the group's mode.
pub struct Group<T> {
    pub mode: ConditionMode,
    pub rules: Vec<Condition<T>>,
    pub nested: Vec<Group<T>>,
}

impl ConditionOperator {
    /// The operator's canonical name, as debug formatting would print it.
    pub open spec fn name_view(self) -> Seq<char> {
        match self {
            ConditionOperator::Equals => "Equals"@,
            ConditionOperator::NotEquals => "NotEquals"@,
            ConditionOperator::GreaterThan => "GreaterThan"@,
            ConditionOperator::LessThan => "LessThan"@,
            ConditionOperator::GreaterThanOrEqual => "GreaterThanOrEqual"@,
            ConditionOperator::LessThanOrEqual => "LessThanOrEqual"@,
            ConditionOperator::Contains => "Contains"@,
            ConditionOperator::NotContains => "NotContains"@,
            ConditionOperator::StartsWith => "StartsWith"@,
            ConditionOperator::EndsWith => "EndsWith"@,
            ConditionOperator::Regex => "Regex"@,
            ConditionOperator::IsNone => "IsNone"@,
            ConditionOperator::IsSome => "IsSome"@,
            ConditionOperator::IsEmpty => "IsEmpty"@,
            ConditionOperator::IsNotEmpty => "IsNotEmpty"@,
        }
    }

    /// The operator's canonical name.
    pub fn name(&self) -> (r: &'static str)
        ensures
            r@ == self.name_view(),
    {
        match self {
            ConditionOperator::Equals => "Equals",
            ConditionOperator::NotEquals => "NotEquals",
            ConditionOperator::GreaterThan => "GreaterThan",
            ConditionOperator::LessThan => "LessThan",
            ConditionOperator::GreaterThanOrEqual => "GreaterThanOrEqual",
            ConditionOperator::LessThanOrEqual => "LessThanOrEqual",
            ConditionOperator::Contains => "Contains",
            ConditionOperator::NotContains => "NotContains",
            ConditionOperator::StartsWith => "StartsWith",
            ConditionOperator::EndsWith => "EndsWith",
            ConditionOperator::Regex => "Regex",
            ConditionOperator::IsNone => "IsNone",
            ConditionOperator::IsSome => "IsSome",
            ConditionOperator::IsEmpty => "IsEmpty",
            ConditionOperator::IsNotEmpty => "IsNotEmpty",
        }
    }

    /// The wire name of each operator, as the JSON rule format spells it.
    pub open spec fn wire_view(self) -> Seq<char> {
        match self {
            ConditionOperator::Equals => "equals"@,
            ConditionOperator::NotEquals => "not_equals"@,
            ConditionOperator::GreaterThan => "greater_than"@,
            ConditionOperator::LessThan => "less_than"@,
            ConditionOperator::GreaterThanOrEqual => "greater_than_or_equal"@,
            ConditionOperator::LessThanOrEqual => "less_than_or_equal"@,
            ConditionOperator::Contains => "contains"@,
            ConditionOperator::NotContains => "not_contains"@,
            ConditionOperator::StartsWith => "starts_with"@,
            ConditionOperator::EndsWith => "ends_with"@,
            ConditionOperator::Regex => "regex"@,
            ConditionOperator::IsNone => "is_none"@,
            ConditionOperator::IsSome => "is_some"@,
            ConditionOperator::IsEmpty => "is_empty"@,
            ConditionOperator::IsNotEmpty => "is_not_empty"@,
        }
    }
}

/// The operator a wire-format name denotes, if any: unknown names are None,
/// and every operator is reachable from its own wire name.
pub open spec fn spec_parse_operator(s: Seq<char>) -> Option<ConditionOperator> {
    if s == "equals"@ {
        Some(ConditionOperator::Equals)
    } else if s == "not_equals"@ {
        Some(ConditionOperator::NotEquals)
    } else if s == "greater_than"@ {
        Some(ConditionOperator::GreaterThan)
    } else if s == "less_than"@ {
        Some(ConditionOperator::LessThan)
    } else if s == "greater_than_or_equal"@ {
        Some(ConditionOperator::GreaterThanOrEqual)
    } else if s == "less_than_or_equal"@ {
        Some(ConditionOperator::LessThanOrEqual)
    } else if s == "contains"@ {
        Some(ConditionOperator::Contains)
    } else if s == "not_contains"@ {
        Some(ConditionOperator::NotContains)
    } else if s == "starts_with"@ {
        Some(ConditionOperator::StartsWith)
    } else if s == "ends_with"@ {
        Some(ConditionOperator::EndsWith)
    } else if s == "regex"@ {
        Some(ConditionOperator::Regex)
    } else if s == "is_none"@ {
        Some(ConditionOperator::IsNone)
    } else if s == "is_some"@ {
        Some(ConditionOperator::IsSome)
    } else if s == "is_empty"@ {
        Some(ConditionOperator::IsEmpty)
    } else if s == "is_not_empty"@ {
        Some(ConditionOperator::IsNotEmpty)
    } else {
        None
    }
}

/// Parse a wire-format operator name.
pub fn parse_operator(s: &str) -> (r: Option<ConditionOperator>)
    ensures
        r == spec_parse_operator(s@),
{
    if crate::text::str_eq(s, "equals") {
        Some(ConditionOperator::Equals)
    } else if crate::text::str_eq(s, "not_equals") {
        Some(ConditionOperator::NotEquals)
    } else if crate::text::str_eq(s, "greater_than") {
        Some(ConditionOperator::GreaterThan)
    } else if crate::text::str_eq(s, "less_than") {
        Some(ConditionOperator::LessThan)
    } else if crate::text::str_eq(s, "greater_than_or_equal") {
        Some(ConditionOperator::GreaterThanOrEqual)
    } else if crate::text::str_eq(s, "less_than_or_equal") {
        Some(ConditionOperator::LessThanOrEqual)
    } else if crate::text::str_eq(s, "contains") {
        Some(ConditionOperator::Contains)
    } else if crate::text::str_eq(s, "not_contains") {
        Some(ConditionOperator::NotContains)
    } else if crate::text::str_eq(s, "starts_with") {
        Some(ConditionOperator::StartsWith)
    } else if crate::text::str_eq(s, "ends_with") {
        Some(ConditionOperator::EndsWith)
    } else if crate::text::str_eq(s, "regex") {
        Some(ConditionOperator::Regex)
    } else if crate::text::str_eq(s, "is_none") {
        Some(ConditionOperator::IsNone)
    } else if crate::text::str_eq(s, "is_some") {
        Some(ConditionOperator::IsSome)
    } else if crate::text::str_eq(s, "is_empty") {
        Some(ConditionOperator::IsEmpty)
    } else if crate::text::str_eq(s, "is_not_empty") {
        Some(ConditionOperator::IsNotEmpty)
    } else {
        None
    }
}

/// The mode a wire-format name denotes, if any.
pub open spec fn spec_parse_mode(s: Seq<char>) -> Option<ConditionMode> {
    if s == "AND"@ {
        Some(ConditionMode::AND)
    } else if s == "OR"@ {
        Some(ConditionMode::OR)
    } else if s == "XOR"@ {
        Some(ConditionMode::XOR)
    } else {
        None
    }
}

/// Parse a wire-format mode name.
pub fn parse_mode(s: &str) -> (r: Option<ConditionMode>)
    ensures
        r == spec_parse_mode(s@),
{
    if crate::text::str_eq(s, "AND") {
        Some(ConditionMode::AND)
    } else if crate::text::str_eq(s, "OR") {
        Some(ConditionMode::OR)
    } else if crate::text::str_eq(s, "XOR") {
        Some(ConditionMode::XOR)
    } else {
        None
    }
}

} // verus!

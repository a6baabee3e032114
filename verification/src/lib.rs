//! A condition-matching library: declaratively built trees of boolean
//! conditions, evaluated against records through a verified field-access
//! protocol, with detailed per-condition results, a JSON rule surface, and
//! sequential and parallel batch drivers.

pub mod batch;
pub mod builder;
pub mod compare;
pub mod condition;
pub mod error;
pub mod evaluators;
pub mod ieee754;
pub mod json;
pub mod laws;
pub mod matchable;
pub mod matcher;
pub mod matchers;
pub mod result;
pub mod scalar;
pub mod text;
pub mod traits;
pub mod wire;

pub use builder::{field, FieldConditionBuilder};
pub use compare::{compare_any_values, compare_numeric, try_compare_strings};
pub use condition::{Condition, ConditionMode, ConditionOperator, ConditionSelector, Group};
pub use error::MatchError;
pub use evaluators::{FieldEvaluator, LengthEvaluator, PathEvaluator, TypeEvaluator,
    ValueEvaluator};
pub use json::{JsonCondition, JsonConditionResult, JsonEvalResult, JsonEvaluator,
    JsonNestedCondition, JsonVal};
pub use matchable::{FieldEntry, Matchable, Record};
pub use matcher::{Matcher, MatcherMode};
pub use matchers::RuleMatcher;
pub use result::{ConditionResult, MatchResult};
pub use scalar::Scalar;
pub use traits::{Evaluate, MatcherExt, Predicate};
pub use wire::{JsonMatcher, JsonParseError};

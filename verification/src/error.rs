//! Errors that can arise while evaluating a condition. Every one of them is
//! embedded in the condition's result rather than raised: a failing lookup
//! degrades to a failed condition with a diagnostic.
use vstd::prelude::*;

verus! {

/// Errors that can occur during condition matching.
#[derive(Debug, Clone)]
pub enum MatchError {
    /// The specified field was not found on the type.
    FieldNotFound { field: String, type_label: String },
    /// Type mismatch between expected and actual values (reserved for
    /// future explicit surfacing).
    TypeMismatch { field: String, expected: String, actual: String },
    /// The operator is not supported for this type or context.
    UnsupportedOperator { operator: String, context: String },
    /// Length check is not supported for this type.
    LengthNotSupported { type_label: String },
    /// Regular-expression compilation failed.
    RegexError { pattern: String, message: String },
    /// The field path is empty.
    EmptyFieldPath,
    /// A nested field was not found along the path.
    NestedFieldNotFound { path: Vec<String>, failed_at: String },
}

/// The spec-level shape of a `MatchError`, with string contents as
/// character sequences.
pub ghost enum MatchErrorV {
    FieldNotFound { field: Seq<char>, type_label: Seq<char> },
    TypeMismatch { field: Seq<char>, expected: Seq<char>, actual: Seq<char> },
    UnsupportedOperator { operator: Seq<char>, context: Seq<char> },
    LengthNotSupported { type_label: Seq<char> },
    RegexError { pattern: Seq<char>, message: Seq<char> },
    EmptyFieldPath,
    NestedFieldNotFound { path: Seq<Seq<char>>, failed_at: Seq<char> },
}

impl View for MatchError {
    type V = MatchErrorV;

    open spec fn view(&self) -> MatchErrorV {
        match self {
            MatchError::FieldNotFound { field, type_label } => MatchErrorV::FieldNotFound {
                field: field@,
                type_label: type_label@,
            },
            MatchError::TypeMismatch { field, expected, actual } => MatchErrorV::TypeMismatch {
                field: field@,
                expected: expected@,
                actual: actual@,
            },
            MatchError::UnsupportedOperator { operator, context } => (
            MatchErrorV::UnsupportedOperator { operator: operator@, context: context@ }),
            MatchError::LengthNotSupported { type_label } => MatchErrorV::LengthNotSupported {
                type_label: type_label@,
            },
            MatchError::RegexError { pattern, message } => MatchErrorV::RegexError {
                pattern: pattern@,
                message: message@,
            },
            MatchError::EmptyFieldPath => MatchErrorV::EmptyFieldPath,
            MatchError::NestedFieldNotFound { path, failed_at } => (
            MatchErrorV::NestedFieldNotFound { path: path.deep_view(), failed_at: failed_at@ }),
        }
    }
}

impl MatchErrorV {
    /// The human-readable message for each error shape.
    pub open spec fn message_view(self) -> Seq<char> {
        match self {
            MatchErrorV::FieldNotFound { field, type_label } => "Field '"@ + field
                + "' not found on type '"@ + type_label + "'"@,
            MatchErrorV::TypeMismatch { field, expected, actual } => "Type mismatch for field '"@
                + field + "': expected '"@ + expected + "', got '"@ + actual + "'"@,
            MatchErrorV::UnsupportedOperator { operator, context } => "Operator '"@ + operator
                + "' not supported for "@ + context,
            MatchErrorV::LengthNotSupported { type_label } => "Length check not supported for type '"@
                + type_label + "'"@,
            MatchErrorV::RegexError { pattern, message } => "Invalid regex pattern '"@ + pattern
                + "': "@ + message,
            MatchErrorV::EmptyFieldPath => "Field path cannot be empty"@,
            MatchErrorV::NestedFieldNotFound { path, failed_at } => "Nested field not found at '"@
                + failed_at + "'"@,
        }
    }
}

impl MatchError {
    /// The human-readable message for this error.
    pub fn message(&self) -> (r: String)
        ensures
            r@ == self@.message_view(),
    {
        match self {
            MatchError::FieldNotFound { field, type_label } => {
                let r = "Field '".to_owned().concat(field.as_str()).concat(
                    "' not found on type '",
                ).concat(String::as_str(type_label)).concat("'");
                proof {
                    assert(r@ =~= self@.message_view());
                }
                r
            },
            MatchError::TypeMismatch { field, expected, actual } => {
                let r = "Type mismatch for field '".to_owned().concat(field.as_str()).concat(
                    "': expected '",
                ).concat(expected.as_str()).concat("', got '").concat(actual.as_str()).concat("'");
                proof {
                    assert(r@ =~= self@.message_view());
                }
                r
            },
            MatchError::UnsupportedOperator { operator, context } => {
                let r = "Operator '".to_owned().concat(operator.as_str()).concat(
                    "' not supported for ",
                ).concat(context.as_str());
                proof {
                    assert(r@ =~= self@.message_view());
                }
                r
            },
            MatchError::LengthNotSupported { type_label } => {
                let r = "Length check not supported for type '".to_owned().concat(
                    String::as_str(type_label),
                ).concat("'");
                proof {
                    assert(r@ =~= self@.message_view());
                }
                r
            },
            MatchError::RegexError { pattern, message } => {
                let r = "Invalid regex pattern '".to_owned().concat(pattern.as_str()).concat(
                    "': ",
                ).concat(message.as_str());
                proof {
                    assert(r@ =~= self@.message_view());
                }
                r
            },
            MatchError::EmptyFieldPath => "Field path cannot be empty".to_owned(),
            MatchError::NestedFieldNotFound { path: _, failed_at } => {
                let r = "Nested field not found at '".to_owned().concat(failed_at.as_str()).concat(
                    "'",
                );
                proof {
                    assert(r@ =~= self@.message_view());
                }
                r
            },
        }
    }
}

} // verus!

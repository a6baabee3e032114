//! Tests of the trait-based matcher surface: `RuleMatcher` with the
//! `Matcher` and `Evaluate` traits, and the fluent builders.
use condition_matcher::builder::{field, MatcherBuilder};
use condition_matcher::condition::{Condition, ConditionMode, ConditionOperator,
    ConditionSelector};
use condition_matcher::matchers::RuleMatcher;
use condition_matcher::traits::{Evaluate, Matcher};
use condition_matcher::{Record, Scalar};

#[test]
fn test_test_matcher_and_mode() {
    let mut matcher: RuleMatcher<&str> = RuleMatcher::new(ConditionMode::AND);
    matcher.add_condition(Condition {
        selector: ConditionSelector::Length(5),
        operator: ConditionOperator::GreaterThanOrEqual,
    });
    matcher.add_condition(Condition {
        selector: ConditionSelector::Value("something"),
        operator: ConditionOperator::NotEquals,
    });

    assert_eq!(matcher.matches(&"test"), false);
    assert_eq!(matcher.matches(&"test12345"), true);
    assert_eq!(matcher.matches(&"something"), false);
    assert_eq!(matcher.matches(&"somethingelse"), true);
}

#[test]
fn test_test_matcher_or_mode() {
    let mut matcher: RuleMatcher<&str> = RuleMatcher::new(ConditionMode::OR);
    matcher.add_condition(Condition {
        selector: ConditionSelector::Length(4),
        operator: ConditionOperator::Equals,
    });
    matcher.add_condition(Condition {
        selector: ConditionSelector::Value("hello"),
        operator: ConditionOperator::Equals,
    });

    assert_eq!(matcher.matches(&"test"), true);
    assert_eq!(matcher.matches(&"hello"), true);
    assert_eq!(matcher.matches(&"world"), false);
}

#[test]
fn test_test_matcher_xor_mode() {
    let mut matcher: RuleMatcher<&str> = RuleMatcher::new(ConditionMode::XOR);
    matcher.add_condition(Condition {
        selector: ConditionSelector::Length(4),
        operator: ConditionOperator::Equals,
    });
    matcher.add_condition(Condition {
        selector: ConditionSelector::Value("test"),
        operator: ConditionOperator::Equals,
    });

    assert_eq!(matcher.matches(&"test"), false);
    assert_eq!(matcher.matches(&"hello"), false);
    assert_eq!(matcher.matches(&"abcd"), true);
}

#[test]
fn test_test_type_checking() {
    let mut matcher: RuleMatcher<&str> = RuleMatcher::new(ConditionMode::AND);
    matcher.add_condition(Condition {
        selector: ConditionSelector::Type("&str".to_string()),
        operator: ConditionOperator::Equals,
    });

    assert_eq!(matcher.matches(&"test"), true);
}

#[test]
fn test_test_field_checking() {
    let test_value = Record::new("TestStruct")
        .with_field("a", Scalar::I32(1))
        .with_field("b", Scalar::Str("test".to_string()));

    // Test equals
    let mut matcher: RuleMatcher<Record> = RuleMatcher::new(ConditionMode::AND);
    matcher.add_condition(Condition {
        selector: ConditionSelector::FieldValue("a".to_string(), Scalar::I32(1)),
        operator: ConditionOperator::Equals,
    });
    assert_eq!(matcher.matches(&test_value), true);

    // Test not equals
    let mut matcher2: RuleMatcher<Record> = RuleMatcher::new(ConditionMode::AND);
    matcher2.add_condition(Condition {
        selector: ConditionSelector::FieldValue("a".to_string(), Scalar::I32(2)),
        operator: ConditionOperator::Equals,
    });
    assert_eq!(matcher2.matches(&test_value), false);

    // Test string field
    let mut matcher3: RuleMatcher<Record> = RuleMatcher::new(ConditionMode::AND);
    matcher3.add_condition(Condition {
        selector: ConditionSelector::FieldValue("b".to_string(), Scalar::Str("test".to_string())),
        operator: ConditionOperator::Equals,
    });
    assert_eq!(matcher3.matches(&test_value), true);
}

#[test]
fn test_test_numeric_comparisons_on_fields() {
    let person = Record::new("Person")
        .with_field("age", Scalar::U32(25))
        .with_field("score", Scalar::F64Bits(85.5f64.to_bits()));

    // Test greater than
    let mut matcher: RuleMatcher<Record> = RuleMatcher::new(ConditionMode::AND);
    matcher.add_condition(Condition {
        selector: ConditionSelector::FieldValue("age".to_string(), Scalar::U32(18)),
        operator: ConditionOperator::GreaterThan,
    });
    assert!(matcher.matches(&person));

    // Test less than or equal
    let mut matcher2: RuleMatcher<Record> = RuleMatcher::new(ConditionMode::AND);
    matcher2.add_condition(Condition {
        selector: ConditionSelector::FieldValue("age".to_string(), Scalar::U32(25)),
        operator: ConditionOperator::LessThanOrEqual,
    });
    assert!(matcher2.matches(&person));

    // Test float comparison
    let mut matcher3: RuleMatcher<Record> = RuleMatcher::new(ConditionMode::AND);
    matcher3.add_condition(Condition {
        selector: ConditionSelector::FieldValue(
            "score".to_string(),
            Scalar::F64Bits(80.0f64.to_bits()),
        ),
        operator: ConditionOperator::GreaterThan,
    });
    assert!(matcher3.matches(&person));
}

#[test]
fn test_test_string_operations() {
    let email = Record::new("Email").with_field(
        "address",
        Scalar::Str("user@example.com".to_string()),
    );

    // Test contains
    let mut matcher: RuleMatcher<Record> = RuleMatcher::new(ConditionMode::AND);
    matcher.add_condition(Condition {
        selector: ConditionSelector::FieldValue(
            "address".to_string(),
            Scalar::Str("@example".to_string()),
        ),
        operator: ConditionOperator::Contains,
    });
    assert!(matcher.matches(&email));

    // Test starts with
    let mut matcher2: RuleMatcher<Record> = RuleMatcher::new(ConditionMode::AND);
    matcher2.add_condition(Condition {
        selector: ConditionSelector::FieldValue(
            "address".to_string(),
            Scalar::Str("user@".to_string()),
        ),
        operator: ConditionOperator::StartsWith,
    });
    assert!(matcher2.matches(&email));

    // Test ends with
    let mut matcher3: RuleMatcher<Record> = RuleMatcher::new(ConditionMode::AND);
    matcher3.add_condition(Condition {
        selector: ConditionSelector::FieldValue(
            "address".to_string(),
            Scalar::Str(".com".to_string()),
        ),
        operator: ConditionOperator::EndsWith,
    });
    assert!(matcher3.matches(&email));

    // Test not contains
    let mut matcher4: RuleMatcher<Record> = RuleMatcher::new(ConditionMode::AND);
    matcher4.add_condition(Condition {
        selector: ConditionSelector::FieldValue(
            "address".to_string(),
            Scalar::Str("@gmail".to_string()),
        ),
        operator: ConditionOperator::NotContains,
    });
    assert!(matcher4.matches(&email));
}

#[test]
fn test_test_detailed_results() {
    let mut matcher: RuleMatcher<&str> = RuleMatcher::new(ConditionMode::AND);
    matcher.add_condition(Condition {
        selector: ConditionSelector::Length(4),
        operator: ConditionOperator::Equals,
    });
    matcher.add_condition(Condition {
        selector: ConditionSelector::Value("test"),
        operator: ConditionOperator::Equals,
    });

    let result = matcher.evaluate(&"test");
    assert!(result.is_match());
    assert_eq!(result.passed_conditions().len(), 2);
    assert_eq!(result.failed_conditions().len(), 0);

    let result2 = matcher.evaluate(&"hello");
    assert!(!result2.is_match());
    assert_eq!(result2.passed_conditions().len(), 0);
    assert_eq!(result2.failed_conditions().len(), 2);
}

#[test]
fn test_test_builder_api() {
    let matcher = MatcherBuilder::<&str>::new()
        .mode(ConditionMode::AND)
        .length_gte(4)
        .value_not_equals("bad")
        .build();

    assert!(matcher.matches(&"good"));
    assert!(!matcher.matches(&"bad"));
    assert!(!matcher.matches(&"hi"));
}

#[test]
fn test_test_field_builder() {
    let user = Record::new("User").with_field("age", Scalar::U32(25));

    let condition = field::<Record>("age").gte(Scalar::U32(18));
    let mut matcher = RuleMatcher::new(ConditionMode::AND);
    matcher.add_condition(condition);

    assert!(matcher.matches(&user));
}

#[test]
fn test_test_convenience_constructors() {
    let and_matcher: RuleMatcher<&str> = RuleMatcher::and();
    assert_eq!(and_matcher.mode, ConditionMode::AND);

    let or_matcher: RuleMatcher<&str> = RuleMatcher::or();
    assert_eq!(or_matcher.mode, ConditionMode::OR);

    let xor_matcher: RuleMatcher<&str> = RuleMatcher::xor();
    assert_eq!(xor_matcher.mode, ConditionMode::XOR);
}

#[test]
fn test_test_error_on_missing_field() {
    let user = Record::new("User").with_field("name", Scalar::Str("Alice".to_string()));

    let mut matcher: RuleMatcher<Record> = RuleMatcher::new(ConditionMode::AND);
    matcher.add_condition(Condition {
        selector: ConditionSelector::FieldValue(
            "nonexistent".to_string(),
            Scalar::Str("value".to_string()),
        ),
        operator: ConditionOperator::Equals,
    });

    let result = matcher.evaluate(&user);
    assert!(!result.is_match());

    let failed = result.failed_conditions();
    assert_eq!(failed.len(), 1);
    assert!(failed[0].error.is_some());
}

#[test]
fn test_test_not_operator() {
    let item = Record::new("Item").with_field("active", Scalar::Bool(false));

    // NOT(active == true) should match because active is false
    let inner_condition = Condition {
        selector: ConditionSelector::FieldValue("active".to_string(), Scalar::Bool(true)),
        operator: ConditionOperator::Equals,
    };

    let mut matcher: RuleMatcher<Record> = RuleMatcher::new(ConditionMode::AND);
    matcher.add_condition(Condition {
        selector: ConditionSelector::Not(Box::new(inner_condition)),
        operator: ConditionOperator::Equals, // operator is ignored for NOT
    });

    assert!(matcher.matches(&item));
}

#[test]
fn test_test_optional_fields() {
    let profile_with_nick = Record::new("Profile")
        .with_field("name", Scalar::Str("Alice".to_string()))
        .with_field("nickname", Scalar::Str("Ali".to_string()));

    let profile_without_nick = Record::new("Profile").with_field(
        "name",
        Scalar::Str("Bob".to_string()),
    );

    let mut matcher: RuleMatcher<Record> = RuleMatcher::new(ConditionMode::AND);
    matcher.add_condition(Condition {
        selector: ConditionSelector::FieldValue(
            "nickname".to_string(),
            Scalar::Str("Ali".to_string()),
        ),
        operator: ConditionOperator::Equals,
    });

    assert!(matcher.matches(&profile_with_nick));
    // When absent, field access returns None, so the match fails
    assert!(!matcher.matches(&profile_without_nick));
}

#[test]
fn test_test_regex_matching() {
    let email = Record::new("Email").with_field(
        "address",
        Scalar::Str("user@example.com".to_string()),
    );

    let mut matcher: RuleMatcher<Record> = RuleMatcher::new(ConditionMode::AND);
    matcher.add_condition(Condition {
        selector: ConditionSelector::FieldValue(
            "address".to_string(),
            Scalar::Str(r"^[a-z]+@[a-z]+\.[a-z]+$".to_string()),
        ),
        operator: ConditionOperator::Regex,
    });

    assert!(matcher.matches(&email));

    // Test non-matching regex
    let bad_email = Record::new("Email").with_field(
        "address",
        Scalar::Str("not-an-email".to_string()),
    );
    assert!(!matcher.matches(&bad_email));
}

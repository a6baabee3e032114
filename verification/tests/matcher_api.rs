//! Tests of the original matcher surface: the `Matcher` struct with its
//! `run` and `run_detailed` entry points.
use condition_matcher::condition::{Condition, ConditionOperator, ConditionSelector};
use condition_matcher::matcher::{Matcher, MatcherBuilder, MatcherMode};
use condition_matcher::{field, Record, Scalar};

fn record_ab(a: i32, b: &str) -> Record {
    Record::new("TestStruct")
        .with_field("a", Scalar::I32(a))
        .with_field("b", Scalar::Str(b.to_string()))
}

#[test]
fn matcher_test_matcher_and_mode() {
    let mut matcher: Matcher<&str> = Matcher::new(MatcherMode::AND);
    matcher.add_condition(Condition {
        selector: ConditionSelector::Length(5),
        operator: ConditionOperator::GreaterThanOrEqual,
    });
    matcher.add_condition(Condition {
        selector: ConditionSelector::Value("something"),
        operator: ConditionOperator::NotEquals,
    });

    assert_eq!(matcher.run(&"test").unwrap(), false);
    assert_eq!(matcher.run(&"test12345").unwrap(), true);
    assert_eq!(matcher.run(&"something").unwrap(), false);
    assert_eq!(matcher.run(&"somethingelse").unwrap(), true);
}

#[test]
fn matcher_test_matcher_or_mode() {
    let mut matcher: Matcher<&str> = Matcher::new(MatcherMode::OR);
    matcher.add_condition(Condition {
        selector: ConditionSelector::Length(4),
        operator: ConditionOperator::Equals,
    });
    matcher.add_condition(Condition {
        selector: ConditionSelector::Value("hello"),
        operator: ConditionOperator::Equals,
    });

    assert_eq!(matcher.run(&"test").unwrap(), true);
    assert_eq!(matcher.run(&"hello").unwrap(), true);
    assert_eq!(matcher.run(&"world").unwrap(), false);
}

#[test]
fn matcher_test_matcher_xor_mode() {
    let mut matcher: Matcher<&str> = Matcher::new(MatcherMode::XOR);
    matcher.add_condition(Condition {
        selector: ConditionSelector::Length(4),
        operator: ConditionOperator::Equals,
    });
    matcher.add_condition(Condition {
        selector: ConditionSelector::Value("test"),
        operator: ConditionOperator::Equals,
    });

    assert_eq!(matcher.run(&"test").unwrap(), false);
    assert_eq!(matcher.run(&"hello").unwrap(), false);
    assert_eq!(matcher.run(&"abcd").unwrap(), true);
}

#[test]
fn matcher_test_type_checking() {
    let mut matcher: Matcher<&str> = Matcher::new(MatcherMode::AND);
    matcher.add_condition(Condition {
        selector: ConditionSelector::Type("&str".to_string()),
        operator: ConditionOperator::Equals,
    });

    assert_eq!(matcher.run(&"test").unwrap(), true);
}

#[test]
fn matcher_test_field_checking() {
    let test_value = record_ab(1, "test");

    // Test equals
    let mut matcher: Matcher<Record> = Matcher::new(MatcherMode::AND);
    matcher.add_condition(Condition {
        selector: ConditionSelector::FieldValue("a".to_string(), Scalar::I32(1)),
        operator: ConditionOperator::Equals,
    });
    assert_eq!(matcher.run(&test_value).unwrap(), true);

    // Test not equals
    let mut matcher2: Matcher<Record> = Matcher::new(MatcherMode::AND);
    matcher2.add_condition(Condition {
        selector: ConditionSelector::FieldValue("a".to_string(), Scalar::I32(2)),
        operator: ConditionOperator::Equals,
    });
    assert_eq!(matcher2.run(&test_value).unwrap(), false);

    // Test string field
    let mut matcher3: Matcher<Record> = Matcher::new(MatcherMode::AND);
    matcher3.add_condition(Condition {
        selector: ConditionSelector::FieldValue("b".to_string(), Scalar::Str("test".to_string())),
        operator: ConditionOperator::Equals,
    });
    assert_eq!(matcher3.run(&test_value).unwrap(), true);
}

#[test]
fn matcher_test_numeric_comparisons_on_fields() {
    let person = Record::new("Person")
        .with_field("age", Scalar::U32(25))
        .with_field("score", Scalar::F64Bits(85.5f64.to_bits()));

    // Test greater than
    let mut matcher: Matcher<Record> = Matcher::new(MatcherMode::AND);
    matcher.add_condition(Condition {
        selector: ConditionSelector::FieldValue("age".to_string(), Scalar::U32(18)),
        operator: ConditionOperator::GreaterThan,
    });
    assert!(matcher.run(&person).unwrap());

    // Test less than or equal
    let mut matcher2: Matcher<Record> = Matcher::new(MatcherMode::AND);
    matcher2.add_condition(Condition {
        selector: ConditionSelector::FieldValue("age".to_string(), Scalar::U32(25)),
        operator: ConditionOperator::LessThanOrEqual,
    });
    assert!(matcher2.run(&person).unwrap());

    // Test float comparison
    let mut matcher3: Matcher<Record> = Matcher::new(MatcherMode::AND);
    matcher3.add_condition(Condition {
        selector: ConditionSelector::FieldValue(
            "score".to_string(),
            Scalar::F64Bits(80.0f64.to_bits()),
        ),
        operator: ConditionOperator::GreaterThan,
    });
    assert!(matcher3.run(&person).unwrap());
}

#[test]
fn matcher_test_string_operations() {
    let email = Record::new("Email").with_field(
        "address",
        Scalar::Str("user@example.com".to_string()),
    );

    // Test contains
    let mut matcher: Matcher<Record> = Matcher::new(MatcherMode::AND);
    matcher.add_condition(Condition {
        selector: ConditionSelector::FieldValue(
            "address".to_string(),
            Scalar::Str("@example".to_string()),
        ),
        operator: ConditionOperator::Contains,
    });
    assert!(matcher.run(&email).unwrap());

    // Test starts with
    let mut matcher2: Matcher<Record> = Matcher::new(MatcherMode::AND);
    matcher2.add_condition(Condition {
        selector: ConditionSelector::FieldValue(
            "address".to_string(),
            Scalar::Str("user@".to_string()),
        ),
        operator: ConditionOperator::StartsWith,
    });
    assert!(matcher2.run(&email).unwrap());

    // Test ends with
    let mut matcher3: Matcher<Record> = Matcher::new(MatcherMode::AND);
    matcher3.add_condition(Condition {
        selector: ConditionSelector::FieldValue(
            "address".to_string(),
            Scalar::Str(".com".to_string()),
        ),
        operator: ConditionOperator::EndsWith,
    });
    assert!(matcher3.run(&email).unwrap());

    // Test not contains
    let mut matcher4: Matcher<Record> = Matcher::new(MatcherMode::AND);
    matcher4.add_condition(Condition {
        selector: ConditionSelector::FieldValue(
            "address".to_string(),
            Scalar::Str("@gmail".to_string()),
        ),
        operator: ConditionOperator::NotContains,
    });
    assert!(matcher4.run(&email).unwrap());
}

#[test]
fn matcher_test_detailed_results() {
    let mut matcher: Matcher<&str> = Matcher::new(MatcherMode::AND);
    matcher.add_condition(Condition {
        selector: ConditionSelector::Length(4),
        operator: ConditionOperator::Equals,
    });
    matcher.add_condition(Condition {
        selector: ConditionSelector::Value("test"),
        operator: ConditionOperator::Equals,
    });

    let result = matcher.run_detailed(&"test").unwrap();
    assert!(result.is_match());
    assert_eq!(result.passed_conditions().len(), 2);
    assert_eq!(result.failed_conditions().len(), 0);

    let result2 = matcher.run_detailed(&"hello").unwrap();
    assert!(!result2.is_match());
    assert_eq!(result2.passed_conditions().len(), 0);
    assert_eq!(result2.failed_conditions().len(), 2);
}

#[test]
fn matcher_test_builder_api() {
    let matcher = MatcherBuilder::<&str>::new()
        .mode(MatcherMode::AND)
        .length_gte(4)
        .value_not_equals("bad")
        .build();

    assert!(matcher.run(&"good").unwrap());
    assert!(!matcher.run(&"bad").unwrap());
    assert!(!matcher.run(&"hi").unwrap());
}

#[test]
fn matcher_test_field_builder() {
    let user = Record::new("User").with_field("age", Scalar::U32(25));

    let condition = field::<Record>("age").gte(Scalar::U32(18));
    let mut matcher = Matcher::new(MatcherMode::AND);
    matcher.add_condition(condition);

    assert!(matcher.run(&user).unwrap());
}

#[test]
fn matcher_test_convenience_constructors() {
    let and_matcher: Matcher<&str> = Matcher::and();
    assert_eq!(and_matcher.mode, MatcherMode::AND);

    let or_matcher: Matcher<&str> = Matcher::or();
    assert_eq!(or_matcher.mode, MatcherMode::OR);

    let xor_matcher: Matcher<&str> = Matcher::xor();
    assert_eq!(xor_matcher.mode, MatcherMode::XOR);
}

#[test]
fn matcher_test_error_on_missing_field() {
    let user = Record::new("User").with_field("name", Scalar::Str("Alice".to_string()));

    let mut matcher: Matcher<Record> = Matcher::new(MatcherMode::AND);
    matcher.add_condition(Condition {
        selector: ConditionSelector::FieldValue(
            "nonexistent".to_string(),
            Scalar::Str("value".to_string()),
        ),
        operator: ConditionOperator::Equals,
    });

    let result = matcher.run_detailed(&user).unwrap();
    assert!(!result.is_match());

    let failed = result.failed_conditions();
    assert_eq!(failed.len(), 1);
    assert!(failed[0].error.is_some());
}

#[test]
fn matcher_test_not_operator() {
    let item = Record::new("Item").with_field("active", Scalar::Bool(false));

    // NOT(active == true) should match because active is false
    let inner_condition = Condition {
        selector: ConditionSelector::FieldValue("active".to_string(), Scalar::Bool(true)),
        operator: ConditionOperator::Equals,
    };

    let mut matcher: Matcher<Record> = Matcher::new(MatcherMode::AND);
    matcher.add_condition(Condition {
        selector: ConditionSelector::Not(Box::new(inner_condition)),
        operator: ConditionOperator::Equals, // operator is ignored for NOT
    });

    assert!(matcher.run(&item).unwrap());
}

#[test]
fn matcher_test_optional_fields() {
    let profile_with_nick = Record::new("Profile")
        .with_field("name", Scalar::Str("Alice".to_string()))
        .with_field("nickname", Scalar::Str("Ali".to_string()));

    // An absent optional field is simply not registered
    let profile_without_nick = Record::new("Profile").with_field(
        "name",
        Scalar::Str("Bob".to_string()),
    );

    let mut matcher: Matcher<Record> = Matcher::new(MatcherMode::AND);
    matcher.add_condition(Condition {
        selector: ConditionSelector::FieldValue(
            "nickname".to_string(),
            Scalar::Str("Ali".to_string()),
        ),
        operator: ConditionOperator::Equals,
    });

    assert!(matcher.run(&profile_with_nick).unwrap());
    // When absent, field access returns None, so the match fails
    assert!(!matcher.run(&profile_without_nick).unwrap());
}

#[test]
fn matcher_test_regex_matching() {
    let email = Record::new("Email").with_field(
        "address",
        Scalar::Str("user@example.com".to_string()),
    );

    let mut matcher: Matcher<Record> = Matcher::new(MatcherMode::AND);
    matcher.add_condition(Condition {
        selector: ConditionSelector::FieldValue(
            "address".to_string(),
            Scalar::Str(r"^[a-z]+@[a-z]+\.[a-z]+$".to_string()),
        ),
        operator: ConditionOperator::Regex,
    });

    assert!(matcher.run(&email).unwrap());

    // Test non-matching regex
    let bad_email = Record::new("Email").with_field(
        "address",
        Scalar::Str("not-an-email".to_string()),
    );
    assert!(!matcher.run(&bad_email).unwrap());
}

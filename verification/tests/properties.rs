//! Concrete cases for the library's laws, the documented scenarios, and
//! the edge cases of the comparison dispatcher.
use condition_matcher::builder::MatcherBuilder;
use condition_matcher::condition::{Condition, ConditionMode, ConditionOperator,
    ConditionSelector};
use condition_matcher::matchers::RuleMatcher;
use condition_matcher::traits::{Evaluate, Matcher, Predicate};
use condition_matcher::{compare_any_values, compare_numeric, Group, JsonMatcher, MatchError,
    Record, Scalar};

fn age_condition(op: ConditionOperator, age: u32) -> Condition<Record> {
    Condition {
        selector: ConditionSelector::FieldValue("age".to_string(), Scalar::U32(age)),
        operator: op,
    }
}

#[test]
fn empty_groups_are_vacuous() {
    let alice = Record::new("User").with_field("age", Scalar::U32(30));
    for value in [&alice] {
        let and: RuleMatcher<Record> = RuleMatcher::and();
        let or: RuleMatcher<Record> = RuleMatcher::or();
        let xor: RuleMatcher<Record> = RuleMatcher::xor();
        assert!(and.matches(value));
        assert!(!or.matches(value));
        assert!(!xor.matches(value));
    }
    // and over a different record type
    let and: RuleMatcher<&str> = RuleMatcher::and();
    let or: RuleMatcher<&str> = RuleMatcher::or();
    assert!(and.matches(&"anything"));
    assert!(!or.matches(&"anything"));
}

#[test]
fn xor_is_exactly_one_at_small_arities() {
    // arity 0
    let m0: RuleMatcher<&str> = RuleMatcher::xor();
    assert!(!m0.matches(&"x"));

    // arities 1..3 over conditions that pass or fail by length
    let pass = || Condition::<&str> {
        selector: ConditionSelector::Length(1),
        operator: ConditionOperator::Equals,
    };
    let fail = || Condition::<&str> {
        selector: ConditionSelector::Length(2),
        operator: ConditionOperator::Equals,
    };
    for bits in 0u32..8 {
        let arity = 3;
        let mut m: RuleMatcher<&str> = RuleMatcher::xor();
        let mut true_count = 0;
        for k in 0..arity {
            if bits & (1 << k) != 0 {
                m.add_condition(pass());
                true_count += 1;
            } else {
                m.add_condition(fail());
            }
        }
        assert_eq!(m.matches(&"x"), true_count == 1);
    }
    for bits in 0u32..4 {
        let mut m: RuleMatcher<&str> = RuleMatcher::xor();
        let mut true_count = 0;
        for k in 0..2 {
            if bits & (1 << k) != 0 {
                m.add_condition(pass());
                true_count += 1;
            } else {
                m.add_condition(fail());
            }
        }
        assert_eq!(m.matches(&"x"), true_count == 1);
    }
    let mut one: RuleMatcher<&str> = RuleMatcher::xor();
    one.add_condition(pass());
    assert!(one.matches(&"x"));
}

#[test]
fn double_negation_restores_verdict() {
    let item = Record::new("Item").with_field("active", Scalar::Bool(false));
    let base = Condition {
        selector: ConditionSelector::FieldValue("active".to_string(), Scalar::Bool(true)),
        operator: ConditionOperator::Equals,
    };
    let double = Condition {
        selector: ConditionSelector::Not(Box::new(Condition {
            selector: ConditionSelector::Not(Box::new(Condition {
                selector: ConditionSelector::FieldValue(
                    "active".to_string(),
                    Scalar::Bool(true),
                ),
                operator: ConditionOperator::Equals,
            })),
            operator: ConditionOperator::Equals,
        })),
        operator: ConditionOperator::Equals,
    };
    assert_eq!(base.test(&item), double.test(&item));
    let r1 = base.test_detailed(&item);
    let r2 = double.test_detailed(&item);
    assert_eq!(r1.passed, r2.passed);
    assert_eq!(r1.error.is_some(), r2.error.is_some());
}

#[test]
fn re_evaluation_is_identical() {
    let alice = Record::new("User")
        .with_field("name", Scalar::Str("Alice".to_string()))
        .with_field("age", Scalar::U32(30));
    let mut m: RuleMatcher<Record> = RuleMatcher::and();
    m.add_condition(age_condition(ConditionOperator::GreaterThanOrEqual, 18));
    m.add_condition(Condition {
        selector: ConditionSelector::FieldValue("missing".to_string(), Scalar::U32(1)),
        operator: ConditionOperator::Equals,
    });
    let r1 = m.evaluate(&alice);
    let r2 = m.evaluate(&alice);
    assert_eq!(r1.matched, r2.matched);
    assert_eq!(r1.condition_results.len(), r2.condition_results.len());
    for (a, b) in r1.condition_results.iter().zip(r2.condition_results.iter()) {
        assert_eq!(a.passed, b.passed);
        assert_eq!(a.description, b.description);
        assert_eq!(a.actual_value, b.actual_value);
        assert_eq!(a.expected_value, b.expected_value);
        assert_eq!(a.error.is_some(), b.error.is_some());
    }
}

#[test]
fn unknown_field_gives_error_not_fault() {
    let user = Record::new("User").with_field("name", Scalar::Str("Alice".to_string()));
    let cond = Condition {
        selector: ConditionSelector::FieldValue("height".to_string(), Scalar::U32(1)),
        operator: ConditionOperator::Equals,
    };
    let row = cond.test_detailed(&user);
    assert!(!row.passed);
    match row.error {
        Some(MatchError::FieldNotFound { field, .. }) => assert_eq!(field, "height"),
        _ => panic!("expected a FieldNotFound diagnostic"),
    }
}

#[test]
fn cross_width_comparison_fails_closed() {
    // An i32 value against an i64 literal of the same magnitude: defined
    // to fail, with no silent coercion, under every operator.
    let ops = [
        ConditionOperator::Equals,
        ConditionOperator::NotEquals,
        ConditionOperator::GreaterThan,
        ConditionOperator::LessThan,
        ConditionOperator::GreaterThanOrEqual,
        ConditionOperator::LessThanOrEqual,
    ];
    for op in ops {
        let (passed, actual, expected) =
            compare_any_values(&Scalar::I32(5), &Scalar::I64(5), &op);
        assert!(!passed);
        assert!(actual.is_none());
        assert!(expected.is_none());
    }
    // Same kind, same value: equality does hold.
    let (passed, _, _) =
        compare_any_values(&Scalar::I32(5), &Scalar::I32(5), &ConditionOperator::Equals);
    assert!(passed);
}

#[test]
fn json_numeric_comparison_is_width_agnostic() {
    // A field equal to 5 matches the JSON rule value 5 whatever the
    // field's concrete integer kind.
    let json = r#"{"mode": "AND", "rules": [{"field": "x", "operator": "equals", "value": 5}]}"#;
    let matcher = JsonMatcher::from_json(json).unwrap();
    let kinds = [
        Scalar::I8(5),
        Scalar::I16(5),
        Scalar::I32(5),
        Scalar::I64(5),
        Scalar::U8(5),
        Scalar::U16(5),
        Scalar::U32(5),
        Scalar::U64(5),
        Scalar::Usize(5),
        Scalar::F64Bits(5.0f64.to_bits()),
    ];
    for k in kinds {
        let rec = Record::new("R").with_field("x", k);
        assert!(matcher.matches(&rec));
    }
    let off = Record::new("R").with_field("x", Scalar::I16(6));
    assert!(!matcher.matches(&off));
}

#[test]
fn matrix_full_agrees_with_matches() {
    let values = vec![
        Record::new("R").with_field("x", Scalar::I32(1)),
        Record::new("R").with_field("x", Scalar::I32(2)),
        Record::new("R").with_field("x", Scalar::I32(3)),
    ];
    let mut matchers = Vec::new();
    for want in 1..=3 {
        let mut m: RuleMatcher<Record> = RuleMatcher::and();
        m.add_condition(Condition {
            selector: ConditionSelector::FieldValue("x".to_string(), Scalar::I32(want)),
            operator: ConditionOperator::Equals,
        });
        matchers.push(m);
    }
    let full = condition_matcher::batch::evaluate_matrix_full(&values, &matchers);
    for (i, row) in full.iter().enumerate() {
        for (j, cell) in row.iter().enumerate() {
            assert_eq!(*cell, matchers[j].matches(&values[i]));
        }
    }
}

#[test]
fn scenario_age_at_least_eighteen() {
    let alice = Record::new("User")
        .with_field("name", Scalar::Str("Alice".to_string()))
        .with_field("age", Scalar::U32(30));
    let mut m: RuleMatcher<Record> = RuleMatcher::and();
    m.add_condition(age_condition(ConditionOperator::GreaterThanOrEqual, 18));
    let result = m.evaluate(&alice);
    assert!(result.matched);
    assert_eq!(result.condition_results.len(), 1);
    let row = &result.condition_results[0];
    assert_eq!(row.actual_value.as_deref(), Some("30"));
    assert_eq!(row.expected_value.as_deref(), Some("18"));
}

#[test]
fn scenario_or_with_substring() {
    let alice = Record::new("User")
        .with_field("name", Scalar::Str("Alice".to_string()))
        .with_field("age", Scalar::U32(30));
    let mut m: RuleMatcher<Record> = RuleMatcher::or();
    m.add_condition(age_condition(ConditionOperator::LessThan, 18));
    m.add_condition(Condition {
        selector: ConditionSelector::FieldValue(
            "name".to_string(),
            Scalar::Str("lic".to_string()),
        ),
        operator: ConditionOperator::Contains,
    });
    let result = m.evaluate(&alice);
    assert!(result.matched);
    assert!(!result.condition_results[0].passed);
    assert!(result.condition_results[1].passed);
}

#[test]
fn scenario_nested_json_groups() {
    let json = r#"{"mode":"AND","nested":[{"mode":"OR","rules":[{"field":"pct_change_24h","operator":"greater_than","value":5}]}]}"#;
    let matcher = JsonMatcher::from_json(json).unwrap();
    let asset = Record::new("Asset").with_field(
        "pct_change_24h",
        Scalar::F64Bits(12.3f64.to_bits()),
    );
    assert!(matcher.matches(&asset));
    let flat = Record::new("Asset").with_field(
        "pct_change_24h",
        Scalar::F64Bits(4.2f64.to_bits()),
    );
    assert!(!matcher.matches(&flat));
}

#[test]
fn length_errors_and_numeric_compare() {
    // Length on a type without one embeds a diagnostic.
    let mut m: RuleMatcher<i32> = RuleMatcher::and();
    m.add_condition(Condition {
        selector: ConditionSelector::Length(3),
        operator: ConditionOperator::Equals,
    });
    let result = m.evaluate(&7);
    assert!(!result.matched);
    match &result.condition_results[0].error {
        Some(MatchError::LengthNotSupported { .. }) => {},
        _ => panic!("expected a LengthNotSupported diagnostic"),
    }

    // compare_numeric implements the six relational operators exactly.
    assert!(compare_numeric(4, 3, &ConditionOperator::GreaterThan));
    assert!(compare_numeric(3, 3, &ConditionOperator::GreaterThanOrEqual));
    assert!(compare_numeric(2, 3, &ConditionOperator::LessThan));
    assert!(!compare_numeric(3, 3, &ConditionOperator::NotEquals));
    assert!(!compare_numeric(3, 3, &ConditionOperator::Contains));
}

#[test]
fn path_errors_are_embedded() {
    let user = Record::new("User").with_field("name", Scalar::Str("Alice".to_string()));

    // Empty path
    let empty = Condition::<Record> {
        selector: ConditionSelector::FieldPath(vec![], Scalar::U32(1)),
        operator: ConditionOperator::Equals,
    };
    let row = empty.test_detailed(&user);
    assert!(!row.passed);
    match row.error {
        Some(MatchError::EmptyFieldPath) => {},
        _ => panic!("expected an EmptyFieldPath diagnostic"),
    }

    // Missing nested path
    let missing = Condition::<Record> {
        selector: ConditionSelector::FieldPath(
            vec!["home".to_string(), "city".to_string()],
            Scalar::Str("Berlin".to_string()),
        ),
        operator: ConditionOperator::Equals,
    };
    let row2 = missing.test_detailed(&user);
    assert!(!row2.passed);
    match row2.error {
        Some(MatchError::NestedFieldNotFound { failed_at, .. }) => {
            assert_eq!(failed_at, "home")
        },
        _ => panic!("expected a NestedFieldNotFound diagnostic"),
    }

    // A resolvable nested path compares the scalar it reaches.
    let address = Record::new("Address").with_field("city", Scalar::Str("Berlin".to_string()));
    let nested_user = Record::new("User").with_sub("address", address);
    let found = Condition::<Record> {
        selector: ConditionSelector::FieldPath(
            vec!["address".to_string(), "city".to_string()],
            Scalar::Str("Berlin".to_string()),
        ),
        operator: ConditionOperator::Equals,
    };
    assert!(found.test(&nested_user));
}

#[test]
fn error_messages_render() {
    let e = MatchError::FieldNotFound {
        field: "x".to_string(),
        type_label: "User".to_string(),
    };
    assert_eq!(e.message(), "Field 'x' not found on type 'User'");

    let e2 = MatchError::RegexError {
        pattern: "(".to_string(),
        message: "unclosed group".to_string(),
    };
    assert_eq!(e2.message(), "Invalid regex pattern '(': unclosed group");

    let e3 = MatchError::UnsupportedOperator {
        operator: "Regex".to_string(),
        context: "numbers".to_string(),
    };
    assert_eq!(e3.message(), "Operator 'Regex' not supported for numbers");

    let e4 = MatchError::TypeMismatch {
        field: "x".to_string(),
        expected: "u32".to_string(),
        actual: "i32".to_string(),
    };
    assert_eq!(e4.message(), "Type mismatch for field 'x': expected 'u32', got 'i32'");
}

#[test]
fn scalar_displays_are_exact() {
    assert_eq!(Scalar::U32(30).display(), "30");
    assert_eq!(Scalar::I32(-7).display(), "-7");
    assert_eq!(Scalar::Bool(true).display(), "true");
    assert_eq!(Scalar::Char('a').display(), "a");
    assert_eq!(Scalar::Str("hi".to_string()).display(), "hi");
    assert_eq!(Scalar::F64Bits(85.5f64.to_bits()).display(), "85.5");
    assert_eq!(Scalar::F64Bits(2.0f64.to_bits()).display(), "2");
    assert_eq!(Scalar::F64Bits(f64::NAN.to_bits()).display(), "NaN");
    assert_eq!(Scalar::F64Bits(f64::INFINITY.to_bits()).display(), "inf");
    assert_eq!(Scalar::U128(340282366920938463463374607431768211455).display(),
        "340282366920938463463374607431768211455");
}

#[test]
fn float_bits_compare_like_their_values() {
    // Same-kind 64-bit comparisons follow IEEE-754 semantics on the bits.
    let a = Scalar::F64Bits(1.5f64.to_bits());
    let b = Scalar::F64Bits(2.5f64.to_bits());
    let (lt, _, _) = compare_any_values(&a, &b, &ConditionOperator::LessThan);
    assert!(lt);
    let nz = Scalar::F64Bits((-0.0f64).to_bits());
    let pz = Scalar::F64Bits(0.0f64.to_bits());
    let (zeq, _, _) = compare_any_values(&nz, &pz, &ConditionOperator::Equals);
    assert!(zeq);
    let nan = Scalar::F64Bits(f64::NAN.to_bits());
    let (naneq, _, _) = compare_any_values(&nan, &nan, &ConditionOperator::Equals);
    assert!(!naneq);
    let (nanle, _, _) = compare_any_values(&nan, &b, &ConditionOperator::LessThanOrEqual);
    assert!(!nanle);
    // 32-bit kind never unifies with 64-bit kind
    let f32v = Scalar::F32Bits(1.5f32.to_bits());
    let (cross, _, _) = compare_any_values(&f32v, &a, &ConditionOperator::Equals);
    assert!(!cross);
    let f32b = Scalar::F32Bits(2.5f32.to_bits());
    let (lt32, _, _) = compare_any_values(&f32v, &f32b, &ConditionOperator::LessThan);
    assert!(lt32);
}

#[test]
fn builder_matcher_builds_what_it_says() {
    let m = MatcherBuilder::<i32>::new()
        .mode(ConditionMode::OR)
        .value_equals(3)
        .value_equals(4)
        .build();
    assert!(m.matches(&3));
    assert!(m.matches(&4));
    assert!(!m.matches(&5));
    assert_eq!(m.mode(), ConditionMode::OR);
}

#[test]
fn nested_selector_is_an_inlined_group() {
    let alice = Record::new("User")
        .with_field("name", Scalar::Str("Alice".to_string()))
        .with_field("age", Scalar::U32(30));

    // OR group of (age < 18, name contains "lic"), inlined as one leaf
    // condition under an AND matcher.
    let group = Group {
        mode: ConditionMode::OR,
        rules: vec![
            age_condition(ConditionOperator::LessThan, 18),
            Condition {
                selector: ConditionSelector::FieldValue(
                    "name".to_string(),
                    Scalar::Str("lic".to_string()),
                ),
                operator: ConditionOperator::Contains,
            },
        ],
        nested: vec![],
    };
    let mut m: RuleMatcher<Record> = RuleMatcher::and();
    m.add_condition(Condition {
        selector: ConditionSelector::Nested(group),
        operator: ConditionOperator::Equals, // ignored for Nested
    });
    assert!(m.matches(&alice));

    // An empty nested OR group makes the AND fail.
    let empty_or = Group { mode: ConditionMode::OR, rules: vec![], nested: vec![] };
    let mut m2: RuleMatcher<Record> = RuleMatcher::and();
    m2.add_condition(Condition {
        selector: ConditionSelector::Nested(empty_or),
        operator: ConditionOperator::Equals,
    });
    assert!(!m2.matches(&alice));
}

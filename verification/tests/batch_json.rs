//! Tests of the batch drivers, the matcher extension methods, and the
//! JSON-backed matcher.
use condition_matcher::batch;
use condition_matcher::builder::MatcherBuilder;
use condition_matcher::traits::{Matcher, MatcherExt};
use condition_matcher::{JsonMatcher, JsonParseError, Record, Scalar};

#[test]
fn test_matcher_ext_filter() {
    let matcher = MatcherBuilder::<i32>::new().value_equals(42).build();

    let values = vec![40, 41, 42, 43, 42, 44];
    let matches = matcher.filter(&values);

    assert_eq!(matches.len(), 2);
    assert!(matches.iter().all(|&&v| v == 42));
}

#[test]
fn test_matcher_ext_matches_all() {
    let matcher = MatcherBuilder::<i32>::new().value_equals(42).build();

    let values = vec![40, 42, 43];
    let results = matcher.matches_all(&values);

    assert_eq!(results, vec![false, true, false]);
}

#[test]
fn test_json_matcher() {
    let user = Record::new("User")
        .with_field("name", Scalar::Str("Alice".to_string()))
        .with_field("age", Scalar::U32(25));

    let json = r#"{"mode": "AND", "rules": [{"field": "age", "operator": "greater_than_or_equal", "value": 18}]}"#;
    let matcher = JsonMatcher::from_json(json).unwrap();

    assert!(matcher.matches(&user));
}

#[test]
fn test_json_matcher_complex() {
    let product = Record::new("Product")
        .with_field("name", Scalar::Str("Widget".to_string()))
        .with_field("price", Scalar::F64Bits(29.99f64.to_bits()))
        .with_field("in_stock", Scalar::Bool(true));

    // Test OR condition
    let json = r#"{
        "mode": "OR",
        "rules": [
            {"field": "price", "operator": "less_than", "value": 20.0},
            {"field": "in_stock", "operator": "equals", "value": true}
        ]
    }"#;
    let matcher = JsonMatcher::from_json(json).unwrap();
    assert!(matcher.matches(&product));

    // Test AND condition that should fail
    let json2 = r#"{
        "mode": "AND",
        "rules": [
            {"field": "price", "operator": "less_than", "value": 20.0},
            {"field": "in_stock", "operator": "equals", "value": true}
        ]
    }"#;
    let matcher2 = JsonMatcher::from_json(json2).unwrap();
    assert!(!matcher2.matches(&product));
}

#[test]
fn test_batch_operations() {
    let matcher = MatcherBuilder::<i32>::new().value_equals(42).build();

    // Test count_matching
    let count = batch::count_matching(&42, &[&matcher]);
    assert_eq!(count, 1);

    // Test any_matches
    assert!(batch::any_matches(&42, &[&matcher]));
    assert!(!batch::any_matches(&41, &[&matcher]));
}

#[test]
fn test_batch_matching_and_indices() {
    let m1 = MatcherBuilder::<i32>::new().value_equals(7).build();
    let m2 = MatcherBuilder::<i32>::new().value_not_equals(7).build();
    let m3 = MatcherBuilder::<i32>::new().value_equals(7).build();
    let matchers = vec![m1, m2, m3];

    let hits = batch::matching(&7, &matchers);
    assert_eq!(hits.len(), 2);

    let ids = batch::matching_indices(&7, &matchers);
    assert_eq!(ids, vec![0, 2]);

    assert!(!batch::all_match(&7, &matchers));
    assert!(batch::all_match(&9, &matchers[1..2]));
}

#[test]
fn test_batch_matrix_and_first() {
    let values = vec![1, 2, 3];
    let m_odd_1 = MatcherBuilder::<i32>::new().value_equals(1).build();
    let m_two = MatcherBuilder::<i32>::new().value_equals(2).build();
    let matchers = vec![m_odd_1, m_two];

    let pairs = batch::evaluate_matrix(&values, &matchers);
    assert_eq!(pairs, vec![(0, 0), (1, 1)]);

    let full = batch::evaluate_matrix_full(&values, &matchers);
    assert_eq!(full, vec![
        vec![true, false],
        vec![false, true],
        vec![false, false],
    ]);

    let first = batch::first_matching(&values, &matchers);
    assert_eq!(first, vec![(0, 0), (1, 1)]);
}

#[test]
fn test_json_matcher_unknown_operator_fails() {
    let json = r#"{"mode": "AND", "rules": [{"field": "age", "operator": "sideways", "value": 18}]}"#;
    match JsonMatcher::from_json(json) {
        Err(JsonParseError::UnknownOperator(name)) => assert_eq!(name, "sideways"),
        _ => panic!("unknown operator must fail parsing"),
    }
}

#[test]
fn test_json_matcher_unknown_mode_fails() {
    let json = r#"{"mode": "NAND", "rules": []}"#;
    match JsonMatcher::from_json(json) {
        Err(JsonParseError::UnknownMode(name)) => assert_eq!(name, "NAND"),
        _ => panic!("unknown mode must fail parsing"),
    }
}

#[test]
fn test_json_matcher_malformed_json_fails() {
    let json = r#"{"mode": "AND", "rules": ["#;
    match JsonMatcher::from_json(json) {
        Err(JsonParseError::InvalidJson(msg)) => assert!(!msg.is_empty()),
        _ => panic!("malformed JSON must fail parsing"),
    }
}

#[test]
fn test_json_dotted_path() {
    let address = Record::new("Address").with_field("city", Scalar::Str("Berlin".to_string()));
    let user = Record::new("User")
        .with_field("name", Scalar::Str("Alice".to_string()))
        .with_sub("address", address);

    let json = r#"{"mode": "AND", "rules": [{"field": "address.city", "operator": "equals", "value": "Berlin"}]}"#;
    let matcher = JsonMatcher::from_json(json).unwrap();
    assert!(matcher.matches(&user));

    let json2 = r#"{"mode": "AND", "rules": [{"field": "address.zip", "operator": "equals", "value": "x"}]}"#;
    let matcher2 = JsonMatcher::from_json(json2).unwrap();
    assert!(!matcher2.matches(&user));
}

#[test]
fn test_json_mode_aliases() {
    let user = Record::new("User").with_field("age", Scalar::U32(25));

    let json = r#"{"logic": "OR", "rules": [{"field": "age", "operator": "less_than", "value": 18}]}"#;
    let matcher = JsonMatcher::from_json(json).unwrap();
    assert!(!matcher.matches(&user));

    let json2 = r#"{"comparator": "XOR", "rules": [{"field": "age", "operator": "greater_than", "value": 18}]}"#;
    let matcher2 = JsonMatcher::from_json(json2).unwrap();
    assert!(matcher2.matches(&user));
}

#[test]
fn test_parallel_matches_sequential() {
    // Randomized values and matchers: the parallel and sequential drivers
    // must produce the same set of matching pairs.
    let mut seed: u64 = 0x2545f4914f6cdd1d;
    let mut next = move || {
        seed ^= seed << 13;
        seed ^= seed >> 7;
        seed ^= seed << 17;
        seed
    };
    let values: Vec<i32> = (0..1000).map(|_| (next() % 50) as i32).collect();
    let matchers: Vec<_> = (0..1000)
        .map(|_| MatcherBuilder::<i32>::new().value_equals((next() % 50) as i32).build())
        .collect();

    let mut seq_pairs = batch::evaluate_matrix(&values, &matchers);
    let mut par_pairs = batch::parallel::evaluate_matrix(&values, &matchers);
    seq_pairs.sort();
    par_pairs.sort();
    assert_eq!(seq_pairs, par_pairs);

    let one = &values[0];
    let mut seq_ids = batch::matching_indices(one, &matchers);
    let mut par_ids = batch::parallel::matching_indices(one, &matchers);
    seq_ids.sort();
    par_ids.sort();
    assert_eq!(seq_ids, par_ids);

    assert_eq!(
        batch::any_matches(one, &matchers),
        batch::parallel::any_matches(one, &matchers)
    );
    assert_eq!(
        batch::all_match(one, &matchers),
        batch::parallel::all_match(one, &matchers)
    );
    assert_eq!(
        batch::parallel::evaluate_matrix_full(&values, &matchers),
        batch::evaluate_matrix_full(&values, &matchers)
    );
    assert_eq!(
        batch::parallel::matching(one, &matchers).len(),
        batch::matching(one, &matchers).len()
    );
}

#[test]
fn test_json_matcher_non_object_fails() {
    for text in ["5", "[]", "null", "\"rules\"", "true"] {
        match JsonMatcher::from_json(text) {
            Err(JsonParseError::NotAnObject) => {},
            _ => panic!("a non-object tree node must fail parsing"),
        }
    }
    // a non-object entry inside a nested array fails the whole parse
    let json = r#"{"mode": "AND", "nested": [5]}"#;
    match JsonMatcher::from_json(json) {
        Err(JsonParseError::NotAnObject) => {},
        _ => panic!("a non-object nested entry must fail parsing"),
    }
    // a non-object rule entry fails the whole parse
    let json2 = r#"{"mode": "AND", "rules": [7]}"#;
    match JsonMatcher::from_json(json2) {
        Err(JsonParseError::NotAnObject) => {},
        _ => panic!("a non-object rule entry must fail parsing"),
    }
    // rules that are not an array fail the whole parse
    let json3 = r#"{"mode": "AND", "rules": 7}"#;
    match JsonMatcher::from_json(json3) {
        Err(JsonParseError::NotAnArray) => {},
        _ => panic!("a non-array rules value must fail parsing"),
    }
    // a rule without a field name fails the whole parse
    let json4 = r#"{"rules": [{"operator": "equals", "value": 1}]}"#;
    match JsonMatcher::from_json(json4) {
        Err(JsonParseError::MissingField) => {},
        _ => panic!("a rule without a field must fail parsing"),
    }
}

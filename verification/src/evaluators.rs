//! Evaluators for the condition selectors, and the recursive evaluation of
//! conditions and groups. Evaluating one condition never raises: every
//! failure mode is embedded in the result row with `passed: false`, and
//! folds like an ordinary false. The result of every evaluation is pinned,
//! field by field, to a spec-level function of the tree and the record's
//! model, so re-evaluation of the same pair yields the identical result.
use vstd::prelude::*;
use crate::compare::{compare_any_values, compare_numeric, spec_compare_any,
    spec_compare_numeric};
use crate::condition::{Condition, ConditionMode, ConditionOperator, ConditionSelector, Group};
use crate::error::{MatchError, MatchErrorV};
use crate::matchable::Matchable;
use crate::result::{ConditionResult, ConditionResultV};
use crate::scalar::Scalar;
use crate::text::{seq_contains_sub, str_contains, str_eq, udec, usize_to_string};

verus! {

// ---------------------------------------------------------------------------
// Mode combination.
// ---------------------------------------------------------------------------

/// How many of the flags are true.
pub open spec fn count_true(s: Seq<bool>) -> int
    decreases s.len(),
{
    if s.len() == 0 {
        0
    } else {
        (if s[0] {
            1int
        } else {
            0int
        }) + count_true(s.drop_first())
    }
}

/// The fold of an ordered list of condition outcomes under a mode: AND is
/// all of them, OR is at least one, XOR is exactly one. The vacuous list
/// gives AND true, OR false, XOR false.
pub open spec fn spec_combine(mode: ConditionMode, flags: Seq<bool>) -> bool {
    match mode {
        ConditionMode::AND => forall|i: int| 0 <= i < flags.len() ==> flags[i],
        ConditionMode::OR => exists|i: int| 0 <= i < flags.len() && flags[i],
        ConditionMode::XOR => count_true(flags) == 1,
    }
}

proof fn lemma_count_true_push(s: Seq<bool>, b: bool)
    ensures
        count_true(s.push(b)) == count_true(s) + (if b {
            1int
        } else {
            0int
        }),
    decreases s.len(),
{
    if s.len() == 0 {
        assert(s.push(b)[0] == b);
        assert(s =~= Seq::<bool>::empty());
        assert(count_true(Seq::<bool>::empty()) == 0);
        assert(s.push(b).drop_first() =~= Seq::<bool>::empty());
    } else {
        lemma_count_true_push(s.drop_first(), b);
        assert(s.push(b)[0] == s[0]);
        assert(s.push(b).drop_first() =~= s.drop_first().push(b));
    }
}

/// Fold a list of outcomes under a mode.
pub fn combine_results(flags: &Vec<bool>, mode: &ConditionMode) -> (r: bool)
    ensures
        r == spec_combine(*mode, flags@),
{
    match mode {
        ConditionMode::AND => {
            let mut i: usize = 0;
            while i < flags.len()
                invariant
                    *mode == ConditionMode::AND,
                    i <= flags@.len(),
                    forall|j: int| 0 <= j < i ==> flags@[j],
                decreases flags@.len() - i,
            {
                if !flags[i] {
                    proof {
                        assert(*mode == ConditionMode::AND);
                        assert(!flags@[i as int]);
                        assert(!spec_combine(ConditionMode::AND, flags@)) by {
                            if spec_combine(ConditionMode::AND, flags@) {
                                assert(flags@[i as int]);
                            }
                        }
                    }
                    return false;
                }
                i = i + 1;
            }
            true
        },
        ConditionMode::OR => {
            let mut i: usize = 0;
            while i < flags.len()
                invariant
                    *mode == ConditionMode::OR,
                    i <= flags@.len(),
                    forall|j: int| 0 <= j < i ==> !flags@[j],
                decreases flags@.len() - i,
            {
                if flags[i] {
                    proof {
                        assert(*mode == ConditionMode::OR);
                        assert((i as int) < flags@.len() && flags@[i as int]);
                        assert(spec_combine(ConditionMode::OR, flags@));
                    }
                    return true;
                }
                i = i + 1;
            }
            false
        },
        ConditionMode::XOR => {
            let mut i: usize = 0;
            let mut n: usize = 0;
            while i < flags.len()
                invariant
                    i <= flags@.len(),
                    n <= i,
                    n as int == count_true(flags@.take(i as int)),
                decreases flags@.len() - i,
            {
                proof {
                    assert(flags@.take(i as int + 1) =~= flags@.take(i as int).push(
                        flags@[i as int],
                    ));
                    lemma_count_true_push(flags@.take(i as int), flags@[i as int]);
                }
                if flags[i] {
                    n = n + 1;
                }
                i = i + 1;
            }
            proof {
                assert(flags@.take(flags@.len() as int) =~= flags@);
            }
            n == 1
        },
    }
}

// ---------------------------------------------------------------------------
// Description strings.
// ---------------------------------------------------------------------------

/// Debug-style rendering of a field path: the quoted segments, separated by
/// commas, in brackets.
pub open spec fn path_items_from(path: Seq<Seq<char>>, i: int) -> Seq<char>
    decreases path.len() - i,
{
    if i < 0 || i >= path.len() {
        Seq::empty()
    } else if i == path.len() - 1 {
        "\""@ + path[i] + "\""@
    } else {
        "\""@ + path[i] + "\""@ + ", "@ + path_items_from(path, i + 1)
    }
}

pub open spec fn path_debug(path: Seq<Seq<char>>) -> Seq<char> {
    "["@ + path_items_from(path, 0) + "]"@
}

fn path_items_exec(path: &[String], i: usize) -> (r: String)
    requires
        i <= path@.len(),
    ensures
        r@ == path_items_from(path.deep_view(), i as int),
    decreases path@.len() - i,
{
    proof {
        assert(path.deep_view().len() == path@.len());
    }
    if i >= path.len() {
        String::new()
    } else if i == path.len() - 1 {
        let r = "\"".to_owned().concat(path[i].as_str()).concat("\"");
        proof {
            assert(path.deep_view()[i as int] == path@[i as int]@);
            assert(r@ =~= path_items_from(path.deep_view(), i as int));
        }
        r
    } else {
        let rest = path_items_exec(path, i + 1);
        let r = "\"".to_owned().concat(path[i].as_str()).concat("\"").concat(", ").concat(
            rest.as_str(),
        );
        proof {
            assert(path.deep_view()[i as int] == path@[i as int]@);
            assert(r@ =~= path_items_from(path.deep_view(), i as int));
        }
        r
    }
}

fn path_debug_exec(path: &[String]) -> (r: String)
    ensures
        r@ == path_debug(path.deep_view()),
{
    let items = path_items_exec(path, 0);
    let r = "[".to_owned().concat(items.as_str()).concat("]");
    proof {
        assert(r@ =~= path_debug(path.deep_view()));
    }
    r
}

// ---------------------------------------------------------------------------
// The per-selector evaluators.
// ---------------------------------------------------------------------------

/// What evaluating a length condition yields: the resolved length compared
/// numerically, or a `LengthNotSupported` diagnostic.
pub open spec fn spec_length_eval<T: Matchable>(
    v: T,
    expected: usize,
    op: ConditionOperator,
) -> ConditionResultV {
    let desc = "length "@ + op.name_view() + " "@ + udec(expected as int);
    match v.m_length() {
        Some(actual) => ConditionResultV {
            passed: spec_compare_numeric(actual as int, expected as int, op),
            description: desc,
            actual_value: Some(udec(actual as int)),
            expected_value: Some(udec(expected as int)),
            error: None,
        },
        None => ConditionResultV {
            passed: false,
            description: desc,
            actual_value: None,
            expected_value: Some(udec(expected as int)),
            error: Some(MatchErrorV::LengthNotSupported { type_label: v.m_type_label() }),
        },
    }
}

/// Evaluator for length comparisons.
pub struct LengthEvaluator;

impl LengthEvaluator {
    /// Evaluate a length condition against a value.
    pub fn evaluate<T: Matchable>(value: &T, expected: usize, operator: &ConditionOperator) -> (r:
        ConditionResult)
        ensures
            r@ == spec_length_eval(*value, expected, *operator),
    {
        let desc = "length ".to_owned().concat(operator.name()).concat(" ").concat(
            usize_to_string(expected).as_str(),
        );
        proof {
            assert(desc@ =~= "length "@ + operator.name_view() + " "@ + udec(expected as int));
        }
        match value.get_length() {
            Some(actual) => ConditionResult {
                passed: compare_numeric(actual, expected, operator),
                description: desc,
                actual_value: Some(usize_to_string(actual)),
                expected_value: Some(usize_to_string(expected)),
                error: None,
            },
            None => ConditionResult {
                passed: false,
                description: desc,
                actual_value: None,
                expected_value: Some(usize_to_string(expected)),
                error: Some(
                    MatchError::LengthNotSupported { type_label: value.type_label().to_owned() },
                ),
            },
        }
    }
}

/// What evaluating a type condition yields: the type labels compared under
/// equality, inequality or containment; any other operator is false.
pub open spec fn spec_type_eval<T: Matchable>(
    v: T,
    expected: Seq<char>,
    op: ConditionOperator,
) -> ConditionResultV {
    let actual = v.m_type_label();
    let passed = match op {
        ConditionOperator::Equals => actual == expected,
        ConditionOperator::NotEquals => actual != expected,
        ConditionOperator::Contains => seq_contains_sub(actual, expected),
        _ => false,
    };
    ConditionResultV {
        passed: passed,
        description: "type "@ + op.name_view() + " "@ + expected,
        actual_value: Some(actual),
        expected_value: Some(expected),
        error: None,
    }
}

/// Evaluator for type name comparisons.
pub struct TypeEvaluator;

impl TypeEvaluator {
    /// Evaluate a type condition against a value.
    pub fn evaluate<T: Matchable>(value: &T, expected: &str, operator: &ConditionOperator) -> (r:
        ConditionResult)
        ensures
            r@ == spec_type_eval(*value, expected@, *operator),
    {
        let actual = value.type_label();
        let passed = match operator {
            ConditionOperator::Equals => str_eq(actual, expected),
            ConditionOperator::NotEquals => !str_eq(actual, expected),
            ConditionOperator::Contains => str_contains(actual, expected),
            _ => false,
        };
        let desc = "type ".to_owned().concat(operator.name()).concat(" ").concat(expected);
        proof {
            assert(desc@ =~= "type "@ + operator.name_view() + " "@ + expected@);
        }
        ConditionResult {
            passed,
            description: desc,
            actual_value: Some(actual.to_owned()),
            expected_value: Some(expected.to_owned()),
            error: None,
        }
    }
}

/// What evaluating a whole-value condition yields: native equality or
/// inequality of the record type; any other operator is false.
pub open spec fn spec_value_eval<T: Matchable>(
    v: T,
    expected: T,
    op: ConditionOperator,
) -> ConditionResultV {
    let passed = match op {
        ConditionOperator::Equals => v.m_eq(&expected),
        ConditionOperator::NotEquals => !v.m_eq(&expected),
        _ => false,
    };
    ConditionResultV {
        passed: passed,
        description: "value "@ + op.name_view(),
        actual_value: None,
        expected_value: None,
        error: None,
    }
}

/// Evaluator for direct value comparisons.
pub struct ValueEvaluator;

impl ValueEvaluator {
    /// Evaluate a value condition against a value.
    pub fn evaluate<T: Matchable>(value: &T, expected: &T, operator: &ConditionOperator) -> (r:
        ConditionResult)
        ensures
            r@ == spec_value_eval(*value, *expected, *operator),
    {
        let passed = match operator {
            ConditionOperator::Equals => value.value_eq(expected),
            ConditionOperator::NotEquals => !value.value_eq(expected),
            _ => false,
        };
        let desc = "value ".to_owned().concat(operator.name());
        proof {
            assert(desc@ =~= "value "@ + operator.name_view());
        }
        ConditionResult {
            passed,
            description: desc,
            actual_value: None,
            expected_value: None,
            error: None,
        }
    }
}

/// What evaluating a field condition yields: the field's scalar compared
/// through the dispatcher, or a `FieldNotFound` diagnostic.
pub open spec fn spec_field_eval<T: Matchable>(
    v: T,
    field: Seq<char>,
    expected: Scalar,
    op: ConditionOperator,
) -> ConditionResultV {
    let desc = "field '"@ + field + "' "@ + op.name_view();
    match v.m_field(field) {
        Some(actual) => {
            let cmp = spec_compare_any(actual, expected, op);
            ConditionResultV {
                passed: cmp.0,
                description: desc,
                actual_value: cmp.1,
                expected_value: cmp.2,
                error: None,
            }
        },
        None => ConditionResultV {
            passed: false,
            description: desc,
            actual_value: None,
            expected_value: None,
            error: Some(
                MatchErrorV::FieldNotFound { field: field, type_label: v.m_type_label() },
            ),
        },
    }
}

/// Evaluator for single field comparisons.
pub struct FieldEvaluator;

impl FieldEvaluator {
    /// Evaluate a field condition against a value.
    pub fn evaluate<T: Matchable>(
        value: &T,
        field: &str,
        expected: &Scalar,
        operator: &ConditionOperator,
    ) -> (r: ConditionResult)
        ensures
            r@ == spec_field_eval(*value, field@, *expected, *operator),
    {
        let desc = "field '".to_owned().concat(field).concat("' ").concat(operator.name());
        proof {
            assert(desc@ =~= "field '"@ + field@ + "' "@ + operator.name_view());
        }
        match value.get_field(field) {
            Some(actual) => {
                let cmp = compare_any_values(actual, expected, operator);
                ConditionResult {
                    passed: cmp.0,
                    description: desc,
                    actual_value: cmp.1,
                    expected_value: cmp.2,
                    error: None,
                }
            },
            None => ConditionResult {
                passed: false,
                description: desc,
                actual_value: None,
                expected_value: None,
                error: Some(
                    MatchError::FieldNotFound {
                        field: field.to_owned(),
                        type_label: value.type_label().to_owned(),
                    },
                ),
            },
        }
    }
}

/// What evaluating a path condition yields: an empty path is an
/// `EmptyFieldPath` diagnostic; otherwise the path lookup's scalar goes
/// through the dispatcher, with a single-segment fallback to plain field
/// lookup, and a `NestedFieldNotFound` diagnostic when nothing resolves.
pub open spec fn spec_path_eval<T: Matchable>(
    v: T,
    path: Seq<Seq<char>>,
    expected: Scalar,
    op: ConditionOperator,
) -> ConditionResultV {
    if path.len() == 0 {
        ConditionResultV {
            passed: false,
            description: "field path"@,
            actual_value: None,
            expected_value: None,
            error: Some(MatchErrorV::EmptyFieldPath),
        }
    } else {
        let desc = "field path '"@ + path_debug(path) + "' "@ + op.name_view();
        match v.m_path(path) {
            Some(actual) => {
                let cmp = spec_compare_any(actual, expected, op);
                ConditionResultV {
                    passed: cmp.0,
                    description: desc,
                    actual_value: cmp.1,
                    expected_value: cmp.2,
                    error: None,
                }
            },
            None => {
                if path.len() == 1 && v.m_field(path[0]) is Some {
                    let cmp = spec_compare_any(v.m_field(path[0]).unwrap(), expected, op);
                    ConditionResultV {
                        passed: cmp.0,
                        description: desc,
                        actual_value: cmp.1,
                        expected_value: cmp.2,
                        error: None,
                    }
                } else {
                    ConditionResultV {
                        passed: false,
                        description: desc,
                        actual_value: None,
                        expected_value: None,
                        error: Some(
                            MatchErrorV::NestedFieldNotFound { path: path, failed_at: path[0] },
                        ),
                    }
                }
            },
        }
    }
}

/// Evaluator for nested field path comparisons.
pub struct PathEvaluator;

impl PathEvaluator {
    /// Evaluate a field path condition against a value.
    pub fn evaluate<T: Matchable>(
        value: &T,
        path: &Vec<String>,
        expected: &Scalar,
        operator: &ConditionOperator,
    ) -> (r: ConditionResult)
        ensures
            r@ == spec_path_eval(*value, path.deep_view(), *expected, *operator),
    {
        proof {
            assert(path.deep_view().len() == path@.len());
        }
        if path.len() == 0 {
            return ConditionResult {
                passed: false,
                description: "field path".to_owned(),
                actual_value: None,
                expected_value: None,
                error: Some(MatchError::EmptyFieldPath),
            };
        }
        let ps = path.as_slice();
        proof {
            assert(ps.deep_view() =~= path.deep_view());
        }
        let desc = "field path '".to_owned().concat(path_debug_exec(ps).as_str()).concat("' ")
            .concat(operator.name());
        proof {
            assert(desc@ =~= "field path '"@ + path_debug(path.deep_view()) + "' "@
                + operator.name_view());
        }
        if let Some(actual) = value.get_field_path(ps) {
            let cmp = compare_any_values(actual, expected, operator);
            return ConditionResult {
                passed: cmp.0,
                description: desc,
                actual_value: cmp.1,
                expected_value: cmp.2,
                error: None,
            };
        }
        proof {
            assert(path.deep_view()[0] == path@[0]@);
        }
        if path.len() == 1 {
            if let Some(actual) = value.get_field(path[0].as_str()) {
                let cmp = compare_any_values(actual, expected, operator);
                return ConditionResult {
                    passed: cmp.0,
                    description: desc,
                    actual_value: cmp.1,
                    expected_value: cmp.2,
                    error: None,
                };
            }
        }
        let mut owned_path: Vec<String> = Vec::new();
        let mut i: usize = 0;
        while i < path.len()
            invariant
                i <= path@.len(),
                owned_path@ =~= path@.take(i as int),
            decreases path@.len() - i,
        {
            owned_path.push(path[i].clone());
            proof {
                assert(owned_path@ =~= path@.take(i as int + 1));
            }
            i = i + 1;
        }
        proof {
            assert(owned_path@ =~= path@);
            assert(owned_path@ == path@);
            assert(owned_path.deep_view() =~= path.deep_view());
        }
        ConditionResult {
            passed: false,
            description: desc,
            actual_value: None,
            expected_value: None,
            error: Some(
                MatchError::NestedFieldNotFound {
                    path: owned_path,
                    failed_at: path[0].clone(),
                },
            ),
        }
    }
}

// ---------------------------------------------------------------------------
// Recursive condition and group evaluation.
// ---------------------------------------------------------------------------

/// The full result row of one condition against one record: a pure function
/// of the condition and the record's model. A `Not` selector inverts its
/// inner verdict, prefixes the description, and preserves any embedded
/// error; a `Nested` selector is its group's aggregate verdict.
pub open spec fn spec_eval_condition<T: Matchable>(c: Condition<T>, v: T) -> ConditionResultV
    decreases c,
{
    match c.selector {
        ConditionSelector::Length(n) => spec_length_eval(v, n, c.operator),
        ConditionSelector::Type(s) => spec_type_eval(v, s@, c.operator),
        ConditionSelector::Value(e) => spec_value_eval(v, e, c.operator),
        ConditionSelector::FieldValue(name, e) => spec_field_eval(v, name@, e, c.operator),
        ConditionSelector::FieldPath(path, e) => spec_path_eval(
            v,
            path.deep_view(),
            e,
            c.operator,
        ),
        ConditionSelector::Not(inner) => {
            let ir = spec_eval_condition(*inner, v);
            ConditionResultV {
                passed: !ir.passed,
                description: "NOT("@ + ir.description + ")"@,
                actual_value: ir.actual_value,
                expected_value: ir.expected_value,
                error: ir.error,
            }
        },
        ConditionSelector::Nested(g) => ConditionResultV {
            passed: spec_group_matched(g, v),
            description: "nested group"@,
            actual_value: None,
            expected_value: None,
            error: None,
        },
    }
}

/// The verdicts of a list of conditions, in order.
pub open spec fn spec_rule_flags<T: Matchable>(rules: Seq<Condition<T>>, v: T) -> Seq<bool>
    decreases rules,
{
    if rules.len() == 0 {
        Seq::empty()
    } else {
        seq![spec_eval_condition(rules[0], v).passed] + spec_rule_flags(rules.drop_first(), v)
    }
}

/// The aggregate verdicts of a list of child groups, in order.
pub open spec fn spec_nested_flags<T: Matchable>(groups: Seq<Group<T>>, v: T) -> Seq<bool>
    decreases groups,
{
    if groups.len() == 0 {
        Seq::empty()
    } else {
        seq![spec_group_matched(groups[0], v)] + spec_nested_flags(groups.drop_first(), v)
    }
}

/// The aggregate verdict of a group: every rule's verdict, then every
/// child group's aggregate, folded in order under the group's mode.
pub open spec fn spec_group_matched<T: Matchable>(g: Group<T>, v: T) -> bool
    decreases g,
{
    spec_combine(g.mode, spec_rule_flags(g.rules@, v) + spec_nested_flags(g.nested@, v))
}

proof fn lemma_rule_flags_push<T: Matchable>(rules: Seq<Condition<T>>, c: Condition<T>, v: T)
    ensures
        spec_rule_flags(rules.push(c), v) =~= spec_rule_flags(rules, v).push(
            spec_eval_condition(c, v).passed,
        ),
    decreases rules.len(),
{
    if rules.len() == 0 {
        assert(rules.push(c)[0] == c);
        assert(rules =~= Seq::<Condition<T>>::empty());
        assert(rules.push(c).drop_first() =~= Seq::<Condition<T>>::empty());
        assert(spec_rule_flags(rules, v) =~= Seq::<bool>::empty());
        assert(spec_rule_flags(rules.push(c), v) =~= seq![spec_eval_condition(c, v).passed]);
    } else {
        lemma_rule_flags_push(rules.drop_first(), c, v);
        assert(rules.push(c).drop_first() =~= rules.drop_first().push(c));
        assert(rules.push(c)[0] == rules[0]);
        assert(spec_rule_flags(rules.push(c), v) =~= seq![
            spec_eval_condition(rules[0], v).passed,
        ] + spec_rule_flags(rules.drop_first().push(c), v));
    }
}

proof fn lemma_nested_flags_push<T: Matchable>(groups: Seq<Group<T>>, g: Group<T>, v: T)
    ensures
        spec_nested_flags(groups.push(g), v) =~= spec_nested_flags(groups, v).push(
            spec_group_matched(g, v),
        ),
    decreases groups.len(),
{
    if groups.len() == 0 {
        assert(groups.push(g)[0] == g);
        assert(groups =~= Seq::<Group<T>>::empty());
        assert(groups.push(g).drop_first() =~= Seq::<Group<T>>::empty());
        assert(spec_nested_flags(groups, v) =~= Seq::<bool>::empty());
        assert(spec_nested_flags(groups.push(g), v) =~= seq![spec_group_matched(g, v)]);
    } else {
        lemma_nested_flags_push(groups.drop_first(), g, v);
        assert(groups.push(g).drop_first() =~= groups.drop_first().push(g));
        assert(groups.push(g)[0] == groups[0]);
        assert(spec_nested_flags(groups.push(g), v) =~= seq![
            spec_group_matched(groups[0], v),
        ] + spec_nested_flags(groups.drop_first().push(g), v));
    }
}

/// Evaluate one condition against a value, producing its full result row.
pub fn evaluate_condition<T: Matchable>(c: &Condition<T>, v: &T) -> (r: ConditionResult)
    ensures
        r@ == spec_eval_condition(*c, *v),
    decreases c,
{
    match &c.selector {
        ConditionSelector::Length(n) => LengthEvaluator::evaluate(v, *n, &c.operator),
        ConditionSelector::Type(s) => TypeEvaluator::evaluate(v, s.as_str(), &c.operator),
        ConditionSelector::Value(e) => ValueEvaluator::evaluate(v, e, &c.operator),
        ConditionSelector::FieldValue(name, e) => FieldEvaluator::evaluate(
            v,
            name.as_str(),
            e,
            &c.operator,
        ),
        ConditionSelector::FieldPath(path, e) => PathEvaluator::evaluate(v, path, e, &c.operator),
        ConditionSelector::Not(inner) => {
            let ir = evaluate_condition(inner, v);
            let desc = "NOT(".to_owned().concat(ir.description.as_str()).concat(")");
            proof {
                assert(desc@ =~= "NOT("@ + ir.description@ + ")"@);
            }
            ConditionResult {
                passed: !ir.passed,
                description: desc,
                actual_value: ir.actual_value,
                expected_value: ir.expected_value,
                error: ir.error,
            }
        },
        ConditionSelector::Nested(g) => ConditionResult {
            passed: evaluate_group(g, v),
            description: "nested group".to_owned(),
            actual_value: None,
            expected_value: None,
            error: None,
        },
    }
}

/// Evaluate a group against a value: every rule and every child group is
/// always evaluated — there is no short-circuiting — and the ordered
/// verdicts are folded under the group's mode.
pub fn evaluate_group<T: Matchable>(g: &Group<T>, v: &T) -> (r: bool)
    ensures
        r == spec_group_matched(*g, *v),
    decreases g,
{
    let mut flags: Vec<bool> = Vec::new();
    let mut i: usize = 0;
    proof {
        assert(g.rules@.take(0) =~= Seq::<Condition<T>>::empty());
        assert(flags@ =~= spec_rule_flags(g.rules@.take(0), *v));
    }
    while i < g.rules.len()
        invariant
            i <= g.rules@.len(),
            flags@ =~= spec_rule_flags(g.rules@.take(i as int), *v),
        decreases g.rules@.len() - i,
    {
        let row = evaluate_condition(&g.rules[i], v);
        flags.push(row.passed);
        proof {
            assert(g.rules@.take(i as int + 1) =~= g.rules@.take(i as int).push(
                g.rules@[i as int],
            ));
            lemma_rule_flags_push(g.rules@.take(i as int), g.rules@[i as int], *v);
        }
        i = i + 1;
    }
    proof {
        assert(g.rules@.take(g.rules@.len() as int) =~= g.rules@);
    }
    let ghost rule_part = flags@;
    let mut j: usize = 0;
    while j < g.nested.len()
        invariant
            j <= g.nested@.len(),
            rule_part == spec_rule_flags(g.rules@, *v),
            flags@ =~= rule_part + spec_nested_flags(g.nested@.take(j as int), *v),
        decreases g.nested@.len() - j,
    {
        let sub = evaluate_group(&g.nested[j], v);
        flags.push(sub);
        proof {
            assert(g.nested@.take(j as int + 1) =~= g.nested@.take(j as int).push(
                g.nested@[j as int],
            ));
            lemma_nested_flags_push(g.nested@.take(j as int), g.nested@[j as int], *v);
        }
        j = j + 1;
    }
    proof {
        assert(g.nested@.take(g.nested@.len() as int) =~= g.nested@);
        assert(flags@ =~= spec_rule_flags(g.rules@, *v) + spec_nested_flags(g.nested@, *v));
    }
    combine_results(&flags, &g.mode)
}


/// The full result rows of a list of conditions, in order.
pub open spec fn spec_rows<T: Matchable>(conds: Seq<Condition<T>>, v: T) -> Seq<
    ConditionResultV,
>
    decreases conds,
{
    if conds.len() == 0 {
        Seq::empty()
    } else {
        seq![spec_eval_condition(conds[0], v)] + spec_rows(conds.drop_first(), v)
    }
}

/// The verdict list is the passed column of the row list.
pub proof fn lemma_rows_flags<T: Matchable>(conds: Seq<Condition<T>>, v: T)
    ensures
        spec_rows(conds, v).len() == conds.len(),
        spec_rule_flags(conds, v).len() == conds.len(),
        forall|i: int|
            0 <= i < conds.len() ==> #[trigger] spec_rule_flags(conds, v)[i] == spec_rows(
                conds,
                v,
            )[i].passed && spec_rows(conds, v)[i] == spec_eval_condition(conds[i], v),
    decreases conds.len(),
{
    if conds.len() > 0 {
        lemma_rows_flags(conds.drop_first(), v);
        let rs = spec_rows(conds, v);
        let fs = spec_rule_flags(conds, v);
        assert forall|i: int|
            0 <= i < conds.len() implies #[trigger] fs[i] == rs[i].passed && rs[i]
            == spec_eval_condition(conds[i], v) by {
            if i >= 1 {
                assert(spec_rule_flags(conds.drop_first(), v)[i - 1] == spec_rows(
                    conds.drop_first(),
                    v,
                )[i - 1].passed);
                assert(conds.drop_first()[i - 1] == conds[i]);
            }
        }
    }
}

proof fn lemma_rows_push<T: Matchable>(conds: Seq<Condition<T>>, c: Condition<T>, v: T)
    ensures
        spec_rows(conds.push(c), v) =~= spec_rows(conds, v).push(spec_eval_condition(c, v)),
    decreases conds.len(),
{
    if conds.len() == 0 {
        assert(conds.push(c)[0] == c);
        assert(conds =~= Seq::<Condition<T>>::empty());
        assert(conds.push(c).drop_first() =~= Seq::<Condition<T>>::empty());
        assert(spec_rows(conds, v) =~= Seq::<ConditionResultV>::empty());
        assert(spec_rows(conds.push(c), v) =~= seq![spec_eval_condition(c, v)]);
    } else {
        lemma_rows_push(conds.drop_first(), c, v);
        assert(conds.push(c).drop_first() =~= conds.drop_first().push(c));
        assert(conds.push(c)[0] == conds[0]);
        assert(spec_rows(conds.push(c), v) =~= seq![spec_eval_condition(conds[0], v)]
            + spec_rows(conds.drop_first().push(c), v));
    }
}

/// Evaluate every condition of a list against a value, in order.
pub fn evaluate_conditions<T: Matchable>(conds: &Vec<Condition<T>>, v: &T) -> (r: Vec<
    ConditionResult,
>)
    ensures
        r.deep_view() == spec_rows(conds@, *v),
{
    let mut rows: Vec<ConditionResult> = Vec::new();
    let mut i: usize = 0;
    proof {
        assert(conds@.take(0) =~= Seq::<Condition<T>>::empty());
        assert(rows.deep_view() =~= spec_rows(conds@.take(0), *v));
    }
    while i < conds.len()
        invariant
            i <= conds@.len(),
            rows.deep_view() =~= spec_rows(conds@.take(i as int), *v),
        decreases conds@.len() - i,
    {
        let row = evaluate_condition(&conds[i], v);
        rows.push(row);
        proof {
            assert(conds@.take(i as int + 1) =~= conds@.take(i as int).push(conds@[i as int]));
            lemma_rows_push(conds@.take(i as int), conds@[i as int], *v);
            assert(rows.deep_view() =~= spec_rows(conds@.take(i as int + 1), *v));
        }
        i = i + 1;
    }
    proof {
        assert(conds@.take(conds@.len() as int) =~= conds@);
    }
    rows
}

/// The verdict of a flat condition list under a mode.
pub open spec fn spec_conditions_matched<T: Matchable>(
    mode: ConditionMode,
    conds: Seq<Condition<T>>,
    v: T,
) -> bool {
    spec_combine(mode, spec_rule_flags(conds, v))
}

/// Fold the verdicts of a list of conditions under a mode.
pub fn conditions_matched<T: Matchable>(
    mode: &ConditionMode,
    conds: &Vec<Condition<T>>,
    v: &T,
) -> (r: bool)
    ensures
        r == spec_conditions_matched(*mode, conds@, *v),
{
    let rows = evaluate_conditions(conds, v);
    rows_matched::<T>(mode, &rows, Ghost(conds@), Ghost(*v))
}

/// Fold already-evaluated rows under a mode; the rows must be those of the
/// given conditions against the given value.
fn rows_matched<T: Matchable>(
    mode: &ConditionMode,
    rows: &Vec<ConditionResult>,
    Ghost(conds): Ghost<Seq<Condition<T>>>,
    Ghost(v): Ghost<T>,
) -> (r: bool)
    requires
        rows.deep_view() == spec_rows(conds, v),
    ensures
        r == spec_conditions_matched(*mode, conds, v),
{
    let mut flags: Vec<bool> = Vec::new();
    let mut i: usize = 0;
    proof {
        lemma_rows_flags(conds, v);
    }
    while i < rows.len()
        invariant
            i <= rows@.len(),
            rows.deep_view() == spec_rows(conds, v),
            spec_rule_flags(conds, v).len() == rows@.len(),
            flags@ =~= spec_rule_flags(conds, v).take(i as int),
            forall|j: int|
                0 <= j < rows@.len() ==> #[trigger] spec_rule_flags(conds, v)[j] == spec_rows(
                    conds,
                    v,
                )[j].passed,
        decreases rows@.len() - i,
    {
        flags.push(rows[i].passed);
        proof {
            assert(rows@[i as int]@ == rows.deep_view()[i as int]);
            assert(spec_rule_flags(conds, v).take(i as int + 1) =~= spec_rule_flags(
                conds,
                v,
            ).take(i as int).push(spec_rule_flags(conds, v)[i as int]));
            assert(flags@ =~= spec_rule_flags(conds, v).take(i as int + 1));
        }
        i = i + 1;
    }
    proof {
        assert(spec_rule_flags(conds, v).take(rows@.len() as int) =~= spec_rule_flags(conds, v));
    }
    combine_results(&flags, mode)
}


/// Evaluate a flat condition list: the verdict under the mode, together
/// with every result row.
pub fn evaluate_with_rows<T: Matchable>(
    mode: &ConditionMode,
    conds: &Vec<Condition<T>>,
    v: &T,
) -> (r: (bool, Vec<ConditionResult>))
    ensures
        r.0 == spec_conditions_matched(*mode, conds@, *v),
        r.1.deep_view() == spec_rows(conds@, *v),
{
    let rows = evaluate_conditions(conds, v);
    let matched = rows_matched::<T>(mode, &rows, Ghost(conds@), Ghost(*v));
    (matched, rows)
}


/// A `Nested` selector at leaf-rule position is semantically identical to
/// an inlined child group: appending a child group as a leaf rule yields
/// the same aggregate verdict as prepending it to the nested children.
pub proof fn lemma_nested_leaf_is_inlined_group<T: Matchable>(
    mode: ConditionMode,
    rules: Seq<Condition<T>>,
    child: Group<T>,
    rest: Seq<Group<T>>,
    op: ConditionOperator,
    v: T,
)
    ensures
        spec_combine(
            mode,
            spec_rule_flags(
                rules.push(
                    Condition { operator: op, selector: ConditionSelector::Nested(child) },
                ),
                v,
            ) + spec_nested_flags(rest, v),
        ) == spec_combine(
            mode,
            spec_rule_flags(rules, v) + spec_nested_flags(seq![child] + rest, v),
        ),
{
    let leaf = Condition { operator: op, selector: ConditionSelector::Nested(child) };
    lemma_rule_flags_push(rules, leaf, v);
    assert(spec_eval_condition(leaf, v).passed == spec_group_matched(child, v));
    let with_child = seq![child] + rest;
    assert(with_child[0] == child);
    assert(with_child.drop_first() =~= rest);
    assert(spec_nested_flags(with_child, v) =~= seq![spec_group_matched(child, v)]
        + spec_nested_flags(rest, v));
    assert(spec_rule_flags(rules.push(leaf), v) + spec_nested_flags(rest, v)
        =~= spec_rule_flags(rules, v) + spec_nested_flags(with_child, v));
}

} // verus!




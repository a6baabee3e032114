//! The JSON rule surface: a tree of conditions structurally isomorphic to a
//! group, with dotted-string field paths and JSON scalar values, parsed
//! from JSON text and evaluated against records through the same protocol.
//!
//! JSON numbers are untyped: every numeric field value, whatever its width
//! or signedness, widens into the saturating fixed-point domain before it
//! is compared, so a 32-bit field equals a JSON literal of the same
//! mathematical value.
use vstd::prelude::*;
use crate::condition::{ConditionMode, ConditionOperator};
use crate::evaluators::{combine_results, spec_combine};
use crate::ieee754::{fp_eq, FP_SAT};
use crate::matchable::Matchable;
use crate::scalar::Scalar;

verus! {

/// A JSON scalar as a rule value: null, a boolean, a number in the
/// fixed-point domain, a string, or any other JSON shape (which never
/// compares equal to anything — fail closed).
pub enum JsonVal {
    Null,
    Bool(bool),
    Num(i128),
    Str(String),
    Other,
}

/// The spec-level shape of a `JsonVal`.
pub ghost enum JsonValV {
    Null,
    Bool(bool),
    Num(i128),
    Str(Seq<char>),
    Other,
}

impl View for JsonVal {
    type V = JsonValV;

    open spec fn view(&self) -> JsonValV {
        match self {
            JsonVal::Null => JsonValV::Null,
            JsonVal::Bool(b) => JsonValV::Bool(*b),
            JsonVal::Num(n) => JsonValV::Num(*n),
            JsonVal::Str(s) => JsonValV::Str(s@),
            JsonVal::Other => JsonValV::Other,
        }
    }
}

impl JsonVal {
    /// A copy of this value, equal to the original.
    pub fn duplicate(&self) -> (r: JsonVal)
        ensures
            r@ == self@,
    {
        match self {
            JsonVal::Null => JsonVal::Null,
            JsonVal::Bool(b) => JsonVal::Bool(*b),
            JsonVal::Num(n) => JsonVal::Num(*n),
            JsonVal::Str(s) => JsonVal::Str(s.clone()),
            JsonVal::Other => JsonVal::Other,
        }
    }
}

/// One JSON rule: a dotted field path, an operator, and a value.
pub struct JsonCondition {
    /// The field to check; dots separate path segments.
    pub field: String,
    /// The comparison operator.
    pub operator: ConditionOperator,
    /// The expected value.
    pub value: JsonVal,
}

/// A JSON condition group: rules and nested child groups folded under a
/// mode, mirroring `Group`.
pub struct JsonNestedCondition {
    /// The combination mode.
    pub mode: ConditionMode,
    /// The rules at this level, in order.
    pub rules: Vec<JsonCondition>,
    /// The nested child groups, in order.
    pub nested: Vec<JsonNestedCondition>,
}

/// The spec-level shape of one JSON rule.
pub ghost struct JsonConditionV {
    pub field: Seq<char>,
    pub operator: ConditionOperator,
    pub value: JsonValV,
}

impl View for JsonCondition {
    type V = JsonConditionV;

    open spec fn view(&self) -> JsonConditionV {
        JsonConditionV { field: self.field@, operator: self.operator, value: self.value@ }
    }
}

impl DeepView for JsonCondition {
    type V = JsonConditionV;

    open spec fn deep_view(&self) -> JsonConditionV {
        self.view()
    }
}

/// The spec-level shape of a JSON condition tree.
pub ghost struct JsonTreeV {
    pub mode: ConditionMode,
    pub rules: Seq<JsonConditionV>,
    pub nested: Seq<JsonTreeV>,
}

/// The spec-level tree a condition tree value carries.
pub open spec fn tree_view(t: JsonNestedCondition) -> JsonTreeV
    decreases t,
{
    JsonTreeV { mode: t.mode, rules: t.rules.deep_view(), nested: trees_view(t.nested@) }
}

pub open spec fn trees_view(ts: Seq<JsonNestedCondition>) -> Seq<JsonTreeV>
    decreases ts,
{
    if ts.len() == 0 {
        Seq::empty()
    } else {
        seq![tree_view(ts[0])] + trees_view(ts.drop_first())
    }
}

/// The recursive view of a tree list is pointwise.
pub proof fn lemma_trees_view_pointwise(ts: Seq<JsonNestedCondition>)
    ensures
        trees_view(ts).len() == ts.len(),
        forall|i: int| 0 <= i < ts.len() ==> #[trigger] trees_view(ts)[i] == tree_view(ts[i]),
    decreases ts.len(),
{
    if ts.len() > 0 {
        lemma_trees_view_pointwise(ts.drop_first());
        assert forall|i: int|
            0 <= i < ts.len() implies #[trigger] trees_view(ts)[i] == tree_view(ts[i]) by {
            if i >= 1 {
                assert(trees_view(ts.drop_first())[i - 1] == tree_view(ts.drop_first()[i - 1]));
                assert(ts.drop_first()[i - 1] == ts[i]);
            }
        }
    }
}

impl View for JsonNestedCondition {
    type V = JsonTreeV;

    open spec fn view(&self) -> JsonTreeV {
        tree_view(*self)
    }
}

impl DeepView for JsonNestedCondition {
    type V = JsonTreeV;

    open spec fn deep_view(&self) -> JsonTreeV {
        self.view()
    }
}

/// Result of evaluating one JSON rule.
pub struct JsonConditionResult {
    /// Whether this rule passed.
    pub passed: bool,
    /// The field that was checked.
    pub field: String,
    /// The operator used.
    pub operator: ConditionOperator,
    /// The expected value.
    pub expected: JsonVal,
    /// The actual value, where the field resolved.
    pub actual: Option<JsonVal>,
    /// A message when the field could not be resolved.
    pub error: Option<String>,
}

/// The spec-level shape of a `JsonConditionResult`.
pub ghost struct JsonConditionResultV {
    pub passed: bool,
    pub field: Seq<char>,
    pub operator: ConditionOperator,
    pub expected: JsonValV,
    pub actual: Option<JsonValV>,
    pub error: Option<Seq<char>>,
}

impl View for JsonConditionResult {
    type V = JsonConditionResultV;

    open spec fn view(&self) -> JsonConditionResultV {
        JsonConditionResultV {
            passed: self.passed,
            field: self.field@,
            operator: self.operator,
            expected: self.expected@,
            actual: match self.actual {
                Some(ref a) => Some(a@),
                None => None,
            },
            error: match self.error {
                Some(ref e) => Some(e@),
                None => None,
            },
        }
    }
}

impl DeepView for JsonConditionResult {
    type V = JsonConditionResultV;

    open spec fn deep_view(&self) -> JsonConditionResultV {
        self.view()
    }
}

/// Result of evaluating a JSON condition group: the aggregate verdict and
/// one row per rule, in depth-first order.
pub struct JsonEvalResult {
    /// Whether the overall group matched.
    pub matched: bool,
    /// Rows for the individual rules, this level's first, then each child
    /// group's in order.
    pub details: Vec<JsonConditionResult>,
}

// ---------------------------------------------------------------------------
// Dotted-path splitting.
// ---------------------------------------------------------------------------

/// The segments of a dotted field string from position `i`, with `cur` the
/// segment read so far: splitting on '.' is deterministic, and an empty
/// string yields one empty segment.
pub open spec fn split_from(s: Seq<char>, i: int, cur: Seq<char>) -> Seq<Seq<char>>
    decreases s.len() - i,
{
    if i < 0 || i >= s.len() {
        seq![cur]
    } else if s[i] == '.' {
        seq![cur] + split_from(s, i + 1, Seq::empty())
    } else {
        split_from(s, i + 1, cur.push(s[i]))
    }
}

/// The dot-separated segments of a field string.
pub open spec fn spec_split_dots(s: Seq<char>) -> Seq<Seq<char>> {
    split_from(s, 0, Seq::empty())
}

/// Split a dotted field string into its segments.
pub fn split_dotted(s: &str) -> (r: Vec<String>)
    ensures
        r.deep_view() == spec_split_dots(s@),
{
    let n = s.unicode_len();
    let mut parts: Vec<String> = Vec::new();
    let mut cur = String::new();
    let mut i: usize = 0;
    while i < n
        invariant
            i <= n,
            n == s@.len(),
            parts.deep_view() + split_from(s@, i as int, cur@) =~= spec_split_dots(s@),
        decreases n - i,
    {
        let c = s.get_char(i);
        if c == '.' {
            parts.push(cur);
            cur = String::new();
            proof {
                assert(parts.deep_view() + split_from(s@, i as int + 1, cur@)
                    =~= spec_split_dots(s@));
            }
        } else {
            let ghost cur0 = cur@;
            let cs = crate::text::char_to_string(c);
            cur.append(cs.as_str());
            proof {
                assert(cur@ =~= cur0.push(c));
                assert(split_from(s@, i as int, cur0) == split_from(
                    s@,
                    i as int + 1,
                    cur0.push(s@[i as int]),
                ));
                assert(parts.deep_view() + split_from(s@, i as int + 1, cur@)
                    =~= spec_split_dots(s@));
            }
        }
        i = i + 1;
    }
    parts.push(cur);
    proof {
        assert(parts.deep_view() =~= spec_split_dots(s@));
    }
    parts
}

// ---------------------------------------------------------------------------
// The widened numeric comparator and the per-rule evaluation.
// ---------------------------------------------------------------------------

/// Clamp a fixed-point value into the saturated domain.
pub open spec fn fp_clamp(v: i128) -> i128 {
    if v > FP_SAT {
        FP_SAT
    } else if v < -FP_SAT {
        (-FP_SAT) as i128
    } else {
        v
    }
}

fn fp_clamp_exec(v: i128) -> (r: i128)
    ensures
        r == fp_clamp(v),
{
    if v > FP_SAT {
        FP_SAT
    } else if v < -FP_SAT {
        -FP_SAT
    } else {
        v
    }
}

/// What comparing a record scalar against a JSON value yields: the verdict
/// and the actual value rendered as a JSON value. Numbers compare in the
/// fixed-point domain, width- and signedness-agnostic, with the tolerant
/// equality; strings support the string operators; booleans support
/// equality; null and non-scalar values never match. A field whose kind
/// cannot enter the expected value's domain fails closed.
pub open spec fn spec_compare_json(a: Scalar, e: JsonValV, op: ConditionOperator) -> (
    bool,
    Option<JsonValV>,
) {
    match e {
        JsonValV::Num(raw) => {
            let fe = fp_clamp(raw);
            match a.fp_val() {
                Some(fa) => {
                    let passed = match op {
                        ConditionOperator::Equals => fp_eq(fa, fe),
                        ConditionOperator::NotEquals => !fp_eq(fa, fe),
                        ConditionOperator::GreaterThan => fa > fe,
                        ConditionOperator::LessThan => fa < fe,
                        ConditionOperator::GreaterThanOrEqual => fa >= fe,
                        ConditionOperator::LessThanOrEqual => fa <= fe,
                        _ => false,
                    };
                    (passed, Some(JsonValV::Num(fa)))
                },
                None => (false, None),
            }
        },
        JsonValV::Str(es) => match a {
            Scalar::Str(s) => {
                match crate::compare::rel_of_strings(s@, es, op) {
                    Some(passed) => (passed, Some(JsonValV::Str(s@))),
                    None => (false, Some(JsonValV::Str(s@))),
                }
            },
            _ => (false, None),
        },
        JsonValV::Bool(eb) => match a {
            Scalar::Bool(ab) => {
                let passed = match op {
                    ConditionOperator::Equals => ab == eb,
                    ConditionOperator::NotEquals => ab != eb,
                    _ => false,
                };
                (passed, Some(JsonValV::Bool(ab)))
            },
            _ => (false, None),
        },
        JsonValV::Null => (false, None),
        JsonValV::Other => (false, None),
    }
}

/// Compare a record scalar against a JSON value under an operator.
pub fn compare_json_to_any(a: &Scalar, e: &JsonVal, op: &ConditionOperator) -> (r: (
    bool,
    Option<JsonVal>,
))
    ensures
        ({
            let s = spec_compare_json(*a, e@, *op);
            r.0 == s.0 && (r.1 is Some <==> s.1 is Some) && (r.1 is Some ==> r.1.unwrap()@
                == s.1.unwrap())
        }),
{
    match e {
        JsonVal::Num(raw) => {
            let fe = fp_clamp_exec(*raw);
            match a.to_fp() {
                Some(fa) => {
                    proof {
                        crate::scalar::lemma_fp_val_bounded(*a);
                    }
                    let passed = match op {
                        ConditionOperator::Equals => crate::ieee754::fp_exec_eq(fa, fe),
                        ConditionOperator::NotEquals => !crate::ieee754::fp_exec_eq(fa, fe),
                        ConditionOperator::GreaterThan => fa > fe,
                        ConditionOperator::LessThan => fa < fe,
                        ConditionOperator::GreaterThanOrEqual => fa >= fe,
                        ConditionOperator::LessThanOrEqual => fa <= fe,
                        _ => false,
                    };
                    (passed, Some(JsonVal::Num(fa)))
                },
                None => (false, None),
            }
        },
        JsonVal::Str(es) => match a {
            Scalar::Str(s) => {
                match crate::compare::try_compare_strings(s.as_str(), es.as_str(), op) {
                    Some(t) => (t.0, Some(JsonVal::Str(s.clone()))),
                    None => (false, Some(JsonVal::Str(s.clone()))),
                }
            },
            _ => (false, None),
        },
        JsonVal::Bool(eb) => match a {
            Scalar::Bool(ab) => {
                let passed = match op {
                    ConditionOperator::Equals => *ab == *eb,
                    ConditionOperator::NotEquals => *ab != *eb,
                    _ => false,
                };
                (passed, Some(JsonVal::Bool(*ab)))
            },
            _ => (false, None),
        },
        JsonVal::Null => (false, None),
        JsonVal::Other => (false, None),
    }
}

/// The result row of one JSON rule against a record: the dotted field is
/// split on '.'; a single segment resolves by plain field lookup, a longer
/// path by path lookup; the resolved scalar is compared against the JSON
/// value; an unresolved field is a failed row with an error message.
pub open spec fn spec_eval_json_rule<T: Matchable>(
    rule: JsonCondition,
    v: T,
) -> JsonConditionResultV {
    let segs = spec_split_dots(rule.field@);
    let actual = if segs.len() == 1 {
        v.m_field(rule.field@)
    } else {
        v.m_path(segs)
    };
    match actual {
        Some(a) => {
            let cmp = spec_compare_json(a, rule.value@, rule.operator);
            JsonConditionResultV {
                passed: cmp.0,
                field: rule.field@,
                operator: rule.operator,
                expected: rule.value@,
                actual: cmp.1,
                error: None,
            }
        },
        None => JsonConditionResultV {
            passed: false,
            field: rule.field@,
            operator: rule.operator,
            expected: rule.value@,
            actual: None,
            error: Some("Field '"@ + rule.field@ + "' not found"@),
        },
    }
}

fn eval_json_rule<T: Matchable>(rule: &JsonCondition, v: &T) -> (r: JsonConditionResult)
    ensures
        r@ == spec_eval_json_rule(*rule, *v),
{
    let segs = split_dotted(rule.field.as_str());
    proof {
        assert(segs.deep_view().len() == segs@.len());
    }
    let ss = segs.as_slice();
    proof {
        assert(ss.deep_view() =~= segs.deep_view());
    }
    let actual = if segs.len() == 1 {
        v.get_field(rule.field.as_str())
    } else {
        v.get_field_path(ss)
    };
    match actual {
        Some(a) => {
            let cmp = compare_json_to_any(a, &rule.value, &rule.operator);
            JsonConditionResult {
                passed: cmp.0,
                field: rule.field.clone(),
                operator: rule.operator,
                expected: rule.value.duplicate(),
                actual: cmp.1,
                error: None,
            }
        },
        None => {
            let msg = "Field '".to_owned().concat(rule.field.as_str()).concat("' not found");
            proof {
                assert(msg@ =~= "Field '"@ + rule.field@ + "' not found"@);
            }
            JsonConditionResult {
                passed: false,
                field: rule.field.clone(),
                operator: rule.operator,
                expected: rule.value.duplicate(),
                actual: None,
                error: Some(msg),
            }
        },
    }
}

// ---------------------------------------------------------------------------
// Recursive JSON group evaluation.
// ---------------------------------------------------------------------------

/// The verdicts of a level's rules, in order.
pub open spec fn spec_json_rule_flags<T: Matchable>(
    rules: Seq<JsonCondition>,
    v: T,
) -> Seq<bool>
    decreases rules,
{
    if rules.len() == 0 {
        Seq::empty()
    } else {
        seq![spec_eval_json_rule(rules[0], v).passed] + spec_json_rule_flags(
            rules.drop_first(),
            v,
        )
    }
}

/// The aggregate verdicts of a level's child groups, in order.
pub open spec fn spec_json_nested_flags<T: Matchable>(
    groups: Seq<JsonNestedCondition>,
    v: T,
) -> Seq<bool>
    decreases groups,
{
    if groups.len() == 0 {
        Seq::empty()
    } else {
        seq![spec_json_matched(groups[0], v)] + spec_json_nested_flags(groups.drop_first(), v)
    }
}

/// The aggregate verdict of a JSON group: its rules' verdicts, then its
/// child groups' aggregates, folded in order under its mode.
pub open spec fn spec_json_matched<T: Matchable>(g: JsonNestedCondition, v: T) -> bool
    decreases g,
{
    spec_combine(g.mode, spec_json_rule_flags(g.rules@, v) + spec_json_nested_flags(g.nested@, v))
}

/// The detail rows of a JSON group, depth-first: this level's rules, then
/// each child group's rows in order.
pub open spec fn spec_json_details<T: Matchable>(g: JsonNestedCondition, v: T) -> Seq<
    JsonConditionResultV,
>
    decreases g,
{
    spec_json_rule_rows(g.rules@, v) + spec_json_nested_details(g.nested@, v)
}

pub open spec fn spec_json_rule_rows<T: Matchable>(rules: Seq<JsonCondition>, v: T) -> Seq<
    JsonConditionResultV,
>
    decreases rules,
{
    if rules.len() == 0 {
        Seq::empty()
    } else {
        seq![spec_eval_json_rule(rules[0], v)] + spec_json_rule_rows(rules.drop_first(), v)
    }
}

pub open spec fn spec_json_nested_details<T: Matchable>(
    groups: Seq<JsonNestedCondition>,
    v: T,
) -> Seq<JsonConditionResultV>
    decreases groups,
{
    if groups.len() == 0 {
        Seq::empty()
    } else {
        spec_json_details(groups[0], v) + spec_json_nested_details(groups.drop_first(), v)
    }
}

proof fn lemma_json_rules_push<T: Matchable>(rules: Seq<JsonCondition>, c: JsonCondition, v: T)
    ensures
        spec_json_rule_flags(rules.push(c), v) =~= spec_json_rule_flags(rules, v).push(
            spec_eval_json_rule(c, v).passed,
        ),
        spec_json_rule_rows(rules.push(c), v) =~= spec_json_rule_rows(rules, v).push(
            spec_eval_json_rule(c, v),
        ),
    decreases rules.len(),
{
    if rules.len() == 0 {
        assert(rules.push(c)[0] == c);
        assert(rules =~= Seq::<JsonCondition>::empty());
        assert(rules.push(c).drop_first() =~= Seq::<JsonCondition>::empty());
        assert(spec_json_rule_flags(rules, v) =~= Seq::<bool>::empty());
        assert(spec_json_rule_rows(rules, v) =~= Seq::<JsonConditionResultV>::empty());
        assert(spec_json_rule_flags(rules.push(c), v) =~= seq![
            spec_eval_json_rule(c, v).passed,
        ]);
        assert(spec_json_rule_rows(rules.push(c), v) =~= seq![spec_eval_json_rule(c, v)]);
    } else {
        lemma_json_rules_push(rules.drop_first(), c, v);
        assert(rules.push(c).drop_first() =~= rules.drop_first().push(c));
        assert(rules.push(c)[0] == rules[0]);
        assert(spec_json_rule_flags(rules.push(c), v) =~= seq![
            spec_eval_json_rule(rules[0], v).passed,
        ] + spec_json_rule_flags(rules.drop_first().push(c), v));
        assert(spec_json_rule_rows(rules.push(c), v) =~= seq![
            spec_eval_json_rule(rules[0], v),
        ] + spec_json_rule_rows(rules.drop_first().push(c), v));
    }
}

proof fn lemma_json_nested_push<T: Matchable>(
    groups: Seq<JsonNestedCondition>,
    g: JsonNestedCondition,
    v: T,
)
    ensures
        spec_json_nested_flags(groups.push(g), v) =~= spec_json_nested_flags(groups, v).push(
            spec_json_matched(g, v),
        ),
        spec_json_nested_details(groups.push(g), v) =~= spec_json_nested_details(groups, v)
            + spec_json_details(g, v),
    decreases groups.len(),
{
    if groups.len() == 0 {
        assert(groups.push(g)[0] == g);
        assert(groups =~= Seq::<JsonNestedCondition>::empty());
        assert(groups.push(g).drop_first() =~= Seq::<JsonNestedCondition>::empty());
        assert(spec_json_nested_flags(groups, v) =~= Seq::<bool>::empty());
        assert(spec_json_nested_details(groups, v) =~= Seq::<JsonConditionResultV>::empty());
        assert(spec_json_nested_flags(groups.push(g), v) =~= seq![spec_json_matched(g, v)]);
        assert(spec_json_nested_details(groups.push(g), v) =~= spec_json_details(g, v));
    } else {
        lemma_json_nested_push(groups.drop_first(), g, v);
        assert(groups.push(g).drop_first() =~= groups.drop_first().push(g));
        assert(groups.push(g)[0] == groups[0]);
        assert(spec_json_nested_flags(groups.push(g), v) =~= seq![
            spec_json_matched(groups[0], v),
        ] + spec_json_nested_flags(groups.drop_first().push(g), v));
        assert(spec_json_nested_details(groups.push(g), v) =~= spec_json_details(groups[0], v)
            + spec_json_nested_details(groups.drop_first().push(g), v));
    }
}

/// Evaluator for JSON condition groups.
pub struct JsonEvaluator;

impl JsonEvaluator {
    /// Evaluate a JSON condition group against a record: the aggregate
    /// verdict together with one row per rule, depth-first.
    pub fn evaluate<T: Matchable>(condition: &JsonNestedCondition, value: &T) -> (r:
        JsonEvalResult)
        ensures
            r.matched == spec_json_matched(*condition, *value),
            r.details.deep_view() == spec_json_details(*condition, *value),
        decreases condition,
    {
        let mut flags: Vec<bool> = Vec::new();
        let mut details: Vec<JsonConditionResult> = Vec::new();
        let mut i: usize = 0;
        proof {
            assert(condition.rules@.take(0) =~= Seq::<JsonCondition>::empty());
            assert(flags@ =~= spec_json_rule_flags(condition.rules@.take(0), *value));
            assert(details.deep_view() =~= spec_json_rule_rows(
                condition.rules@.take(0),
                *value,
            ));
        }
        while i < condition.rules.len()
            invariant
                i <= condition.rules@.len(),
                flags@ =~= spec_json_rule_flags(condition.rules@.take(i as int), *value),
                details.deep_view() =~= spec_json_rule_rows(
                    condition.rules@.take(i as int),
                    *value,
                ),
            decreases condition.rules@.len() - i,
        {
            let row = eval_json_rule(&condition.rules[i], value);
            flags.push(row.passed);
            details.push(row);
            proof {
                assert(condition.rules@.take(i as int + 1) =~= condition.rules@.take(
                    i as int,
                ).push(condition.rules@[i as int]));
                lemma_json_rules_push(
                    condition.rules@.take(i as int),
                    condition.rules@[i as int],
                    *value,
                );
                assert(flags@ =~= spec_json_rule_flags(
                    condition.rules@.take(i as int + 1),
                    *value,
                ));
                assert(details.deep_view() =~= spec_json_rule_rows(
                    condition.rules@.take(i as int + 1),
                    *value,
                ));
            }
            i = i + 1;
        }
        proof {
            assert(condition.rules@.take(condition.rules@.len() as int) =~= condition.rules@);
        }
        let ghost rule_flags = flags@;
        let ghost rule_rows = details.deep_view();
        let mut j: usize = 0;
        while j < condition.nested.len()
            invariant
                j <= condition.nested@.len(),
                rule_flags == spec_json_rule_flags(condition.rules@, *value),
                rule_rows == spec_json_rule_rows(condition.rules@, *value),
                flags@ =~= rule_flags + spec_json_nested_flags(
                    condition.nested@.take(j as int),
                    *value,
                ),
                details.deep_view() =~= rule_rows + spec_json_nested_details(
                    condition.nested@.take(j as int),
                    *value,
                ),
            decreases condition.nested@.len() - j,
        {
            let mut sub = Self::evaluate(&condition.nested[j], value);
            flags.push(sub.matched);
            let ghost details_before = details.deep_view();
            let ghost sub_details = sub.details.deep_view();
            details.append(&mut sub.details);
            proof {
                assert(details.deep_view() =~= details_before + sub_details);
                assert(condition.nested@.take(j as int + 1) =~= condition.nested@.take(
                    j as int,
                ).push(condition.nested@[j as int]));
                lemma_json_nested_push(
                    condition.nested@.take(j as int),
                    condition.nested@[j as int],
                    *value,
                );
                assert(flags@ =~= rule_flags + spec_json_nested_flags(
                    condition.nested@.take(j as int + 1),
                    *value,
                ));
                assert(details.deep_view() =~= rule_rows + spec_json_nested_details(
                    condition.nested@.take(j as int + 1),
                    *value,
                ));
            }
            j = j + 1;
        }
        proof {
            assert(condition.nested@.take(condition.nested@.len() as int)
                =~= condition.nested@);
            assert(flags@ =~= spec_json_rule_flags(condition.rules@, *value)
                + spec_json_nested_flags(condition.nested@, *value));
        }
        let matched = combine_results(&flags, &condition.mode);
        JsonEvalResult { matched, details }
    }
}

} // verus!

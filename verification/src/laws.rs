//! The laws the library keeps, stated once over the spec-level models and
//! proved for all inputs. Each law speaks about the same spec functions
//! that the executable functions' contracts are pinned to, so it carries
//! over to every run of the library.
use vstd::prelude::*;
use crate::condition::{Condition, ConditionMode, ConditionOperator, ConditionSelector, Group};
use crate::evaluators::{count_true, spec_combine, spec_conditions_matched,
    spec_eval_condition, spec_group_matched, spec_rule_flags};
use crate::error::MatchErrorV;
use crate::ieee754::fp_of_int;
use crate::json::{spec_compare_json, JsonValV};
use crate::matchable::Matchable;
use crate::scalar::Scalar;

verus! {

/// A group with no rules and no children is vacuous: it matches under AND,
/// and does not match under OR or XOR — for every record value.
pub proof fn lemma_empty_group_verdict<T: Matchable>(g: Group<T>, v: T)
    requires
        g.rules@.len() == 0,
        g.nested@.len() == 0,
    ensures
        spec_group_matched(g, v) == (g.mode == ConditionMode::AND),
{
    let flags = spec_rule_flags(g.rules@, v) + crate::evaluators::spec_nested_flags(
        g.nested@,
        v,
    );
    assert(flags =~= Seq::<bool>::empty());
    assert(count_true(Seq::<bool>::empty()) == 0);
    match g.mode {
        ConditionMode::AND => {
            assert(spec_combine(ConditionMode::AND, flags));
        },
        ConditionMode::OR => {
            assert(!spec_combine(ConditionMode::OR, flags));
        },
        ConditionMode::XOR => {
            assert(!spec_combine(ConditionMode::XOR, flags));
        },
    }
}

/// A matcher with no conditions is vacuous in the same way: true under
/// AND, false under OR and XOR — for every record value.
pub proof fn lemma_empty_matcher_verdict<T: Matchable>(
    mode: ConditionMode,
    conds: Seq<Condition<T>>,
    v: T,
)
    requires
        conds.len() == 0,
    ensures
        spec_conditions_matched(mode, conds, v) == (mode == ConditionMode::AND),
{
    assert(spec_rule_flags(conds, v) =~= Seq::<bool>::empty());
    assert(count_true(Seq::<bool>::empty()) == 0);
    match mode {
        ConditionMode::AND => {
            assert(spec_combine(ConditionMode::AND, spec_rule_flags(conds, v)));
        },
        ConditionMode::OR => {
            assert(!spec_combine(ConditionMode::OR, spec_rule_flags(conds, v)));
        },
        ConditionMode::XOR => {
            assert(!spec_combine(ConditionMode::XOR, spec_rule_flags(conds, v)));
        },
    }
}

/// An XOR fold is true exactly when exactly one of the folded outcomes is
/// true, at every arity.
pub proof fn lemma_xor_exactly_one(flags: Seq<bool>)
    ensures
        spec_combine(ConditionMode::XOR, flags) <==> count_true(flags) == 1,
{
}

/// Double negation cancels: wrapping any condition in two `Not` selectors,
/// under any operators, restores the inner condition's verdict, and
/// preserves its embedded error and its compared values.
pub proof fn lemma_double_negation<T: Matchable>(c2: Condition<T>, c: Condition<T>, v: T)
    requires
        c2.selector matches ConditionSelector::Not(inner1) && inner1.selector
            matches ConditionSelector::Not(inner0) && *inner0 == c,
    ensures
        spec_eval_condition(c2, v).passed == spec_eval_condition(c, v).passed,
        spec_eval_condition(c2, v).error == spec_eval_condition(c, v).error,
        spec_eval_condition(c2, v).actual_value == spec_eval_condition(c, v).actual_value,
        spec_eval_condition(c2, v).expected_value == spec_eval_condition(c, v).expected_value,
{
    let inner1 = c2.selector->Not_0;
    let r1 = spec_eval_condition(*inner1, v);
    assert(spec_eval_condition(c2, v).passed == !r1.passed);
    let inner0 = inner1.selector->Not_0;
    let r0 = spec_eval_condition(*inner0, v);
    assert(r1.passed == !r0.passed);
    assert(spec_eval_condition(c2, v).error == r1.error && r1.error == r0.error);
    assert(spec_eval_condition(c2, v).actual_value == r1.actual_value && r1.actual_value
        == r0.actual_value);
    assert(spec_eval_condition(c2, v).expected_value == r1.expected_value
        && r1.expected_value == r0.expected_value);
}

/// Evaluation is a pure function of the tree and the record: any two
/// evaluations of the same condition against the same record model are
/// identical, in every field of the result.
pub proof fn lemma_evaluation_deterministic<T: Matchable>(
    c: Condition<T>,
    v: T,
    r1: crate::result::ConditionResultV,
    r2: crate::result::ConditionResultV,
)
    requires
        r1 == spec_eval_condition(c, v),
        r2 == spec_eval_condition(c, v),
    ensures
        r1 == r2,
{
}

/// A field condition over a name the record does not carry degrades to a
/// failed row with a `FieldNotFound` diagnostic — never a fault, and never
/// a silent pass.
pub proof fn lemma_unknown_field_fails<T: Matchable>(c: Condition<T>, v: T)
    requires
        c.selector matches ConditionSelector::FieldValue(name, e) && v.m_field(name@) is None,
    ensures
        !spec_eval_condition(c, v).passed,
        spec_eval_condition(c, v).error matches Some(err) && err matches
            MatchErrorV::FieldNotFound { field, type_label } && (c.selector matches
            ConditionSelector::FieldValue(n, _) ==> field == n@),
{
}

/// The fixed-point widening of the JSON path depends only on the
/// mathematical value: two integer fields of any kinds and equal value
/// widen identically, so JSON numeric comparison is width- and
/// signedness-agnostic.
pub proof fn lemma_json_widening_kind_agnostic(a: Scalar, b: Scalar)
    requires
        a.int_val() is Some,
        a.int_val() == b.int_val(),
    ensures
        a.fp_val() == b.fp_val(),
{
}

/// Hence two integer fields of equal mathematical value compare
/// identically against every JSON number, under every operator.
pub proof fn lemma_json_compare_kind_agnostic(
    a: Scalar,
    b: Scalar,
    e: JsonValV,
    op: ConditionOperator,
)
    requires
        a.int_val() is Some,
        a.int_val() == b.int_val(),
    ensures
        spec_compare_json(a, e, op).0 == spec_compare_json(b, e, op).0,
{
    lemma_json_widening_kind_agnostic(a, b);
}

/// An integer field equals a JSON integer of the same mathematical value:
/// for magnitudes within the precision of the tolerant equality (4*10^15),
/// the fixed-point equality is true exactly on equal values.
pub proof fn lemma_json_integer_equality(a: Scalar, n: int, e: i128, op: ConditionOperator)
    requires
        a.int_val() == Some(n),
        -4_000_000_000_000_000 <= n <= 4_000_000_000_000_000,
        -4_000_000_000_000_000 <= e <= 4_000_000_000_000_000,
        op == ConditionOperator::Equals,
    ensures
        spec_compare_json(a, JsonValV::Num(fp_of_int(e as int)), op).0 == (n == e),
{
    let fa = fp_of_int(n);
    let fe = fp_of_int(e as int);
    assert(fa == n * crate::ieee754::FP_ONE);
    assert(fe == e * crate::ieee754::FP_ONE);
    assert(-crate::ieee754::FP_SAT <= fa <= crate::ieee754::FP_SAT) by (nonlinear_arith)
        requires
            fa == n * crate::ieee754::FP_ONE,
            -4_000_000_000_000_000 <= n <= 4_000_000_000_000_000,
    ;
    assert(crate::json::fp_clamp(fe) == fe) by {
        assert(-crate::ieee754::FP_SAT <= e * crate::ieee754::FP_ONE <= crate::ieee754::FP_SAT)
            by (nonlinear_arith)
            requires
                -4_000_000_000_000_000 <= e <= 4_000_000_000_000_000,
        ;
    }
    if n == e {
        assert(crate::ieee754::fp_eq(fa, fe));
    } else {
        let d = if fa >= fe {
            fa - fe
        } else {
            fe - fa
        };
        assert(d >= crate::ieee754::FP_ONE) by (nonlinear_arith)
            requires
                fa == n * crate::ieee754::FP_ONE,
                fe == e * crate::ieee754::FP_ONE,
                n != e,
                d == if fa >= fe {
                    fa - fe
                } else {
                    fe - fa
                },
        ;
        let m = if crate::ieee754::fp_abs(fa) >= crate::ieee754::fp_abs(fe) {
            crate::ieee754::fp_abs(fa)
        } else {
            crate::ieee754::fp_abs(fe)
        };
        assert(m <= 4_000_000_000_000_000i128 * crate::ieee754::FP_ONE) by (nonlinear_arith)
            requires
                fa == n * crate::ieee754::FP_ONE,
                fe == e * crate::ieee754::FP_ONE,
                -4_000_000_000_000_000 <= n <= 4_000_000_000_000_000,
                -4_000_000_000_000_000 <= e <= 4_000_000_000_000_000,
                m == if crate::ieee754::fp_abs(fa) >= crate::ieee754::fp_abs(fe) {
                    crate::ieee754::fp_abs(fa)
                } else {
                    crate::ieee754::fp_abs(fe)
                },
        ;
        assert(m / 0x10_0000_0000_0000 < crate::ieee754::FP_ONE);
        assert(!crate::ieee754::fp_eq(fa, fe));
    }
}


} // verus!


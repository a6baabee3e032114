//! The JSON wire format: rule trees parsed from JSON text or values into
//! `JsonNestedCondition`, and the matcher that owns one parsed tree.
//!
//! The shape is an object with a "mode" ("AND", "OR" or "XOR"; the keys
//! "logic" and "comparator" are aliases; a missing mode is AND), a "rules"
//! array of { field, operator, value } objects, and a "nested" array of
//! child trees (aliases "nested_rules" and "nested_conditions"). Malformed
//! input fails parsing with a hard error — text that is not JSON, a tree
//! node or rule that is not an object, rules or nested groups that are not
//! arrays, a missing field or operator, and unknown operator or mode
//! names; everything about a record at evaluation time instead degrades to
//! a failed condition.
use vstd::prelude::*;
use crate::condition::{parse_mode, parse_operator, ConditionMode};
use crate::ieee754::FP_SAT;
use crate::json::{JsonCondition, JsonEvalResult, JsonEvaluator, JsonNestedCondition, JsonVal,
    spec_json_matched};
use crate::matchable::Matchable;
use crate::traits::{Evaluate, Matcher};

verus! {

/// The JSON value type of the serde_json crate, opaque to verification.
#[verifier::external_type_specification]
#[verifier::external_body]
pub struct ExJsonValue(serde_json::Value);

/// The deserialization error type of the serde_json crate.
#[verifier::external_type_specification]
#[verifier::external_body]
pub struct ExJsonError(serde_json::Error);

/// The spec-level shape of the number a JSON value stores: an integer held
/// exactly, or a non-integral number carried by its decimal literal text
/// (the shortest form that the value prints as).
pub ghost enum JsonNumV {
    Int(int),
    Float(Seq<char>),
}

/// The spec-level shape of a parsed JSON document.
pub ghost enum JsonDocV {
    Null,
    Bool(bool),
    Num(JsonNumV),
    Str(Seq<char>),
    Arr(Seq<JsonDocV>),
    Obj(Map<Seq<char>, JsonDocV>),
}

/// The document a JSON value carries. The value is a concrete tree (its
/// object maps are ordered), so its document is a function of the value
/// alone; the accessor contracts below all speak of this one name.
pub uninterp spec fn value_doc(v: serde_json::Value) -> JsonDocV;

/// The document a JSON text denotes, or None when the text is not valid
/// JSON. Parsing is a function of the text alone.
pub uninterp spec fn json_doc_of(s: Seq<char>) -> Option<JsonDocV>;

/// Relies on serde_json::from_str: parsing succeeds exactly when the text
/// denotes a document, and the returned value carries that document.
#[verifier::external_body]
fn json_parse_text(s: &str) -> (r: Result<serde_json::Value, serde_json::Error>)
    ensures
        r is Ok <==> json_doc_of(s@) is Some,
        r matches Ok(v) ==> json_doc_of(s@) == Some(value_doc(v)),
{
    serde_json::from_str(s)
}

/// Relies on serde_json::Error's Display: the error's message text.
#[verifier::external_body]
fn json_error_text(e: &serde_json::Error) -> (r: String) {
    e.to_string()
}

/// Relies on serde_json::Value::get: the member of an object under a key;
/// None on a missing key and on every non-object.
#[verifier::external_body]
fn json_get<'a>(v: &'a serde_json::Value, key: &str) -> (r: Option<&'a serde_json::Value>)
    ensures
        match value_doc(*v) {
            JsonDocV::Obj(m) => {
                &&& (r is Some <==> m.contains_key(key@))
                &&& (r matches Some(x) ==> m.contains_key(key@) && value_doc(*x) == m[key@])
            },
            _ => r is None,
        },
{
    v.get(key)
}

/// Relies on serde_json::Value::as_str: the text exactly when the value is
/// a string.
#[verifier::external_body]
fn json_as_str<'a>(v: &'a serde_json::Value) -> (r: Option<&'a str>)
    ensures
        r is Some <==> value_doc(*v) is Str,
        r matches Some(t) ==> value_doc(*v) == JsonDocV::Str(t@),
{
    v.as_str()
}

/// Relies on serde_json::Value::as_bool.
#[verifier::external_body]
fn json_as_bool(v: &serde_json::Value) -> (r: Option<bool>)
    ensures
        r is Some <==> value_doc(*v) is Bool,
        r matches Some(b) ==> value_doc(*v) == JsonDocV::Bool(b),
{
    v.as_bool()
}

/// Relies on serde_json::Value::as_i64: the number exactly when it is a
/// stored integer in the signed 64-bit range.
#[verifier::external_body]
fn json_as_i64(v: &serde_json::Value) -> (r: Option<i64>)
    ensures
        r is Some <==> (value_doc(*v) matches JsonDocV::Num(JsonNumV::Int(n)) && i64::MIN <= n
            <= i64::MAX),
        r matches Some(x) ==> value_doc(*v) == JsonDocV::Num(JsonNumV::Int(x as int)),
{
    v.as_i64()
}

/// Relies on serde_json::Value::as_u64: the number exactly when it is a
/// stored non-negative integer in the unsigned 64-bit range.
#[verifier::external_body]
fn json_as_u64(v: &serde_json::Value) -> (r: Option<u64>)
    ensures
        r is Some <==> (value_doc(*v) matches JsonDocV::Num(JsonNumV::Int(n)) && 0 <= n
            <= u64::MAX),
        r matches Some(x) ==> value_doc(*v) == JsonDocV::Num(JsonNumV::Int(x as int)),
{
    v.as_u64()
}

/// Relies on serde_json::Value::as_array: the elements exactly when the
/// value is an array, in order.
#[verifier::external_body]
fn json_as_array<'a>(v: &'a serde_json::Value) -> (r: Option<&'a Vec<serde_json::Value>>)
    ensures
        r is Some <==> value_doc(*v) is Arr,
        r matches Some(a) ==> {
            let elems = value_doc(*v)->Arr_0;
            &&& a@.len() == elems.len()
            &&& forall|i: int| 0 <= i < a@.len() ==> value_doc(#[trigger] a@[i]) == elems[i]
        },
{
    v.as_array()
}

/// Relies on serde_json::Value::is_null.
#[verifier::external_body]
fn json_is_null(v: &serde_json::Value) -> (r: bool)
    ensures
        r == (value_doc(*v) is Null),
{
    v.is_null()
}

/// Relies on serde_json::Value::is_number: true exactly on numbers, whose
/// stored integers always lie between the signed and unsigned 64-bit
/// bounds.
#[verifier::external_body]
fn json_is_number(v: &serde_json::Value) -> (r: bool)
    ensures
        r == (value_doc(*v) is Num),
        r ==> (value_doc(*v) matches JsonDocV::Num(JsonNumV::Int(n)) ==> i64::MIN <= n
            <= u64::MAX),
{
    v.is_number()
}

/// Relies on serde_json::Value::is_object.
#[verifier::external_body]
fn json_is_object(v: &serde_json::Value) -> (r: bool)
    ensures
        r == (value_doc(*v) is Obj),
{
    v.is_object()
}

/// Relies on serde_json::Value's Display: for a number, its decimal
/// literal — stored integers print in plain decimal, stored non-integral
/// numbers print the literal text the document carries.
#[verifier::external_body]
fn json_value_text(v: &serde_json::Value) -> (r: String)
    ensures
        value_doc(*v) matches JsonDocV::Num(m) ==> r@ == (match m {
            JsonNumV::Int(n) => crate::text::idec(n),
            JsonNumV::Float(t) => t,
        }),
{
    v.to_string()
}

/// Why parsing a JSON rule tree failed.
#[derive(Debug)]
pub enum JsonParseError {
    /// The text is not valid JSON; holds the syntax error's message.
    InvalidJson(String),
    /// A tree node is not a JSON object.
    NotAnObject,
    /// "rules" or a nested-groups key is not an array.
    NotAnArray,
    /// A rule has no "field" string.
    MissingField,
    /// A rule has no "operator" string.
    MissingOperator,
    /// A rule's operator name is not one of the wire operators.
    UnknownOperator(String),
    /// The mode name is not "AND", "OR" or "XOR".
    UnknownMode(String),
    /// The tree nests deeper than the recursion limit.
    TooDeep,
}

/// A decimal digit character.
pub open spec fn is_dec_digit(c: char) -> bool {
    c == '0' || c == '1' || c == '2' || c == '3' || c == '4' || c == '5' || c == '6' || c == '7'
        || c == '8' || c == '9'
}

/// The value of a decimal digit character; 0 on anything else.
pub open spec fn spec_digit(c: char) -> int {
    if c == '1' {
        1
    } else if c == '2' {
        2
    } else if c == '3' {
        3
    } else if c == '4' {
        4
    } else if c == '5' {
        5
    } else if c == '6' {
        6
    } else if c == '7' {
        7
    } else if c == '8' {
        8
    } else if c == '9' {
        9
    } else {
        0
    }
}

/// Scan the mantissa part of a decimal literal from position `i`: digits
/// with at most one point, stopping at the end or at an exponent marker.
/// Accumulates the significant digits (capped at 34), how many further
/// integral digits were dropped past the cap, and how many accumulated
/// digits lie after the point. None when a non-digit intrudes, a second
/// point appears, or no digit was seen; otherwise the stop position and
/// the three counters.
pub open spec fn scan_mant(
    s: Seq<char>,
    i: int,
    mant: int,
    over: int,
    frac: int,
    seen_point: bool,
    seen_digit: bool,
) -> Option<(int, int, int, int)>
    decreases s.len() - i,
{
    if i < 0 || i >= s.len() {
        if seen_digit {
            Some((i, mant, over, frac))
        } else {
            None
        }
    } else if s[i] == '.' {
        if seen_point {
            None
        } else {
            scan_mant(s, i + 1, mant, over, frac, true, seen_digit)
        }
    } else if s[i] == 'e' || s[i] == 'E' {
        if seen_digit {
            Some((i, mant, over, frac))
        } else {
            None
        }
    } else if is_dec_digit(s[i]) {
        if mant < 10_000_000_000_000_000_000_000_000_000_000_000int {
            scan_mant(
                s,
                i + 1,
                mant * 10 + spec_digit(s[i]),
                over,
                if seen_point && frac < 1000 {
                    frac + 1
                } else {
                    frac
                },
                seen_point,
                true,
            )
        } else {
            scan_mant(
                s,
                i + 1,
                mant,
                if !seen_point && over < 1000 {
                    over + 1
                } else {
                    over
                },
                frac,
                seen_point,
                true,
            )
        }
    } else {
        None
    }
}

/// Scan the digits of an exponent from position `i` to the end of the
/// text: None unless at least one digit is present and nothing else
/// follows; the accumulated value is capped at four digits.
pub open spec fn scan_exp_digits(s: Seq<char>, i: int, exp: int, any: bool) -> Option<int>
    decreases s.len() - i,
{
    if i < 0 || i >= s.len() {
        if any {
            Some(exp)
        } else {
            None
        }
    } else if is_dec_digit(s[i]) {
        scan_exp_digits(
            s,
            i + 1,
            if exp < 1000 {
                exp * 10 + spec_digit(s[i])
            } else {
                exp
            },
            true,
        )
    } else {
        None
    }
}

/// Scan a whole exponent part from position `i` (just past the marker):
/// an optional sign, then digits to the end.
pub open spec fn scan_exp(s: Seq<char>, i: int) -> Option<int> {
    if i >= s.len() {
        None
    } else {
        let neg = s[i] == '-';
        let j: int = if s[i] == '+' || s[i] == '-' {
            i + 1
        } else {
            i
        };
        if j >= s.len() {
            None
        } else {
            match scan_exp_digits(s, j, 0, false) {
                None => None,
                Some(e) => Some(
                    if neg {
                        -e
                    } else {
                        e
                    },
                ),
            }
        }
    }
}

/// Multiply by ten `k` times, saturating past the fixed-point bound.
pub open spec fn scale_up(fp: int, k: int) -> int
    decreases k,
{
    if k <= 0 || fp == 0 {
        fp
    } else if fp > 0x2000_0000_0000_0000_0000_0000_0000_0000int / 16 {
        FP_SAT as int + 1
    } else if fp * 10 > FP_SAT as int {
        FP_SAT as int + 1
    } else {
        scale_up(fp * 10, k - 1)
    }
}

/// Divide by ten `-k` times, truncating.
pub open spec fn scale_down(fp: int, k: int) -> int
    decreases -k,
{
    if k >= 0 || fp == 0 {
        fp
    } else {
        scale_down(fp / 10, k + 1)
    }
}

/// The fixed-point value a decimal literal denotes: an optional sign, a
/// mantissa with at most one point, an optional exponent; the magnitude is
/// the mantissa scaled by ten to (18 + exponent + dropped integral digits
/// - fractional digits), saturated at the domain bound and truncated below
/// 10^-18. None on malformed text.
pub open spec fn spec_dec_fp(s: Seq<char>) -> Option<i128> {
    if s.len() == 0 {
        None
    } else {
        let neg = s[0] == '-';
        let start: int = if neg {
            1
        } else {
            0
        };
        match scan_mant(s, start, 0, 0, 0, false, false) {
            None => None,
            Some((stop, mant, over, frac)) => {
                let e: Option<int> = if stop >= s.len() {
                    Some(0)
                } else {
                    scan_exp(s, stop + 1)
                };
                match e {
                    None => None,
                    Some(expv) => {
                        let scale = 18 + expv + over - frac;
                        let mag = if scale > 0 {
                            scale_up(mant, scale)
                        } else {
                            scale_down(mant, scale)
                        };
                        let capped: i128 = if mag > FP_SAT as int {
                            FP_SAT
                        } else {
                            mag as i128
                        };
                        Some(
                            if neg {
                                (-capped) as i128
                            } else {
                                capped
                            },
                        )
                    },
                }
            },
        }
    }
}

/// The spec-level shape of a parse failure.
pub ghost enum JsonParseErrorV {
    InvalidJson(Seq<char>),
    NotAnObject,
    NotAnArray,
    MissingField,
    MissingOperator,
    UnknownOperator(Seq<char>),
    UnknownMode(Seq<char>),
    TooDeep,
}

impl View for JsonParseError {
    type V = JsonParseErrorV;

    open spec fn view(&self) -> JsonParseErrorV {
        match self {
            JsonParseError::InvalidJson(m) => JsonParseErrorV::InvalidJson(m@),
            JsonParseError::NotAnObject => JsonParseErrorV::NotAnObject,
            JsonParseError::NotAnArray => JsonParseErrorV::NotAnArray,
            JsonParseError::MissingField => JsonParseErrorV::MissingField,
            JsonParseError::MissingOperator => JsonParseErrorV::MissingOperator,
            JsonParseError::UnknownOperator(n) => JsonParseErrorV::UnknownOperator(n@),
            JsonParseError::UnknownMode(n) => JsonParseErrorV::UnknownMode(n@),
            JsonParseError::TooDeep => JsonParseErrorV::TooDeep,
        }
    }
}

/// The rule a document node denotes: the node must be an object with a
/// "field" string and an "operator" naming a wire operator; a missing
/// "value" is null.
pub open spec fn spec_rule_of_doc(d: JsonDocV) -> Result<
    crate::json::JsonConditionV,
    JsonParseErrorV,
> {
    match d {
        JsonDocV::Obj(m) => {
            if !(m.contains_key("field"@) && m["field"@] is Str) {
                Err(JsonParseErrorV::MissingField)
            } else {
                let field = m["field"@]->Str_0;
                if !m.contains_key("operator"@) {
                    Err(JsonParseErrorV::MissingOperator)
                } else {
                    match m["operator"@] {
                        JsonDocV::Str(opname) => match crate::condition::spec_parse_operator(
                            opname,
                        ) {
                            Some(op) => {
                                let value = if m.contains_key("value"@) {
                                    spec_jsonval_of(m["value"@])
                                } else {
                                    crate::json::JsonValV::Null
                                };
                                Ok(
                                    crate::json::JsonConditionV {
                                        field: field,
                                        operator: op,
                                        value: value,
                                    },
                                )
                            },
                            None => Err(JsonParseErrorV::UnknownOperator(opname)),
                        },
                        _ => Err(JsonParseErrorV::MissingOperator),
                    }
                }
            }
        },
        _ => Err(JsonParseErrorV::NotAnObject),
    }
}

/// The rules an array of document nodes denotes, from index `i`: the
/// first failing node's error, or all the rules in order.
pub open spec fn spec_rules_of(elems: Seq<JsonDocV>, i: int) -> Result<
    Seq<crate::json::JsonConditionV>,
    JsonParseErrorV,
>
    decreases elems.len() - i,
{
    if i < 0 || i >= elems.len() {
        Ok(Seq::empty())
    } else {
        match spec_rule_of_doc(elems[i]) {
            Err(e) => Err(e),
            Ok(c) => match spec_rules_of(elems, i + 1) {
                Err(e) => Err(e),
                Ok(rest) => Ok(seq![c] + rest),
            },
        }
    }
}

/// The tree a document node denotes, to a bounded nesting depth: an
/// object whose mode (default AND; aliases "logic" and "comparator") names
/// a wire mode, whose "rules" is an array of rules, and whose nested
/// groups (aliases "nested_rules" and "nested_conditions") form an array
/// of child trees, each one level deeper.
pub open spec fn spec_tree_of_doc(d: JsonDocV, depth: int) -> Result<
    crate::json::JsonTreeV,
    JsonParseErrorV,
>
    decreases depth, 0int,
{
    if depth <= 0 {
        Err(JsonParseErrorV::TooDeep)
    } else {
        match d {
            JsonDocV::Obj(m) => {
                let mode_doc: Option<JsonDocV> = if m.contains_key("mode"@) {
                    Some(m["mode"@])
                } else if m.contains_key("logic"@) {
                    Some(m["logic"@])
                } else if m.contains_key("comparator"@) {
                    Some(m["comparator"@])
                } else {
                    None
                };
                let mode_r: Result<ConditionMode, JsonParseErrorV> = match mode_doc {
                    Some(JsonDocV::Str(name)) => match crate::condition::spec_parse_mode(name) {
                        Some(md) => Ok(md),
                        None => Err(JsonParseErrorV::UnknownMode(name)),
                    },
                    Some(_) => Err(JsonParseErrorV::UnknownMode(Seq::empty())),
                    None => Ok(ConditionMode::AND),
                };
                match mode_r {
                    Err(e) => Err(e),
                    Ok(mode) => {
                        let rules_r: Result<
                            Seq<crate::json::JsonConditionV>,
                            JsonParseErrorV,
                        > = if m.contains_key("rules"@) {
                            match m["rules"@] {
                                JsonDocV::Arr(elems) => spec_rules_of(elems, 0),
                                _ => Err(JsonParseErrorV::NotAnArray),
                            }
                        } else {
                            Ok(Seq::empty())
                        };
                        match rules_r {
                            Err(e) => Err(e),
                            Ok(rules) => {
                                let nested_doc: Option<JsonDocV> = if m.contains_key(
                                    "nested"@,
                                ) {
                                    Some(m["nested"@])
                                } else if m.contains_key("nested_rules"@) {
                                    Some(m["nested_rules"@])
                                } else if m.contains_key("nested_conditions"@) {
                                    Some(m["nested_conditions"@])
                                } else {
                                    None
                                };
                                let nested_r: Result<
                                    Seq<crate::json::JsonTreeV>,
                                    JsonParseErrorV,
                                > = match nested_doc {
                                    Some(JsonDocV::Arr(elems)) => spec_trees_of(
                                        elems,
                                        0,
                                        depth - 1,
                                    ),
                                    Some(_) => Err(JsonParseErrorV::NotAnArray),
                                    None => Ok(Seq::empty()),
                                };
                                match nested_r {
                                    Err(e) => Err(e),
                                    Ok(nested) => Ok(
                                        crate::json::JsonTreeV { mode, rules, nested },
                                    ),
                                }
                            },
                        }
                    },
                }
            },
            _ => Err(JsonParseErrorV::NotAnObject),
        }
    }
}

/// The child trees an array of document nodes denotes, from index `i`,
/// each at nesting depth `depth`.
pub open spec fn spec_trees_of(elems: Seq<JsonDocV>, i: int, depth: int) -> Result<
    Seq<crate::json::JsonTreeV>,
    JsonParseErrorV,
>
    decreases depth, 1int + elems.len() - i,
{
    if i < 0 || i >= elems.len() {
        Ok(Seq::empty())
    } else {
        match spec_tree_of_doc(elems[i], depth) {
            Err(e) => Err(e),
            Ok(t) => match spec_trees_of(elems, i + 1, depth) {
                Err(e) => Err(e),
                Ok(rest) => Ok(seq![t] + rest),
            },
        }
    }
}

/// A literal whose mantissa scans but whose exponent part is malformed
/// denotes nothing.
proof fn lemma_dec_fp_malformed_exp(s: Seq<char>, stop: int, m: int, o: int, f: int)
    requires
        s.len() >= 1,
        scan_mant(
            s,
            if s[0] == '-' {
                1int
            } else {
                0int
            },
            0,
            0,
            0,
            false,
            false,
        ) == Some((stop, m, o, f)),
        stop < s.len(),
        scan_exp(s, stop + 1) is None,
    ensures
        spec_dec_fp(s) is None,
{
}

/// Read a decimal number literal into the fixed-point domain.
fn parse_decimal_fp(s: &str) -> (r: Option<i128>)
    ensures
        r == spec_dec_fp(s@),
{
    let n = s.unicode_len();
    if n == 0 {
        return None;
    }
    let mut i: usize = 0;
    let neg = s.get_char(0) == '-';
    if neg {
        i = 1;
    }
    let ghost start = i as int;
    // mantissa digits, with the count of digits after the point
    let mut mant: u128 = 0;
    let mut digits: u64 = 0;
    let mut frac_digits: i64 = 0;
    let mut seen_point = false;
    let mut seen_digit = false;
    let mut at_e = false;
    while i < n && !at_e
        invariant
            i <= n,
            n == s@.len(),
            n >= 1,
            neg == (s@[0] == '-'),
            start == (if neg { 1int } else { 0int }),
            mant < 0x1000_0000_0000_0000_0000_0000_0000_0000u128,
            0 <= frac_digits <= 1000,
            digits <= 1000,
            at_e ==> i < n && (s@[i as int] == 'e' || s@[i as int] == 'E'),
            scan_mant(s@, start, 0, 0, 0, false, false) == scan_mant(
                s@,
                i as int,
                mant as int,
                digits as int,
                frac_digits as int,
                seen_point,
                seen_digit,
            ),
        decreases n - i + (if at_e { 0int } else { 1int }),
    {
        let ghost (gi, gm, go, gf, gsp, gsd) = (
            i as int,
            mant as int,
            digits as int,
            frac_digits as int,
            seen_point,
            seen_digit,
        );
        let c = s.get_char(i);
        if c == '.' {
            if seen_point {
                proof {
                    assert(scan_mant(s@, gi, gm, go, gf, gsp, gsd) is None);
                    assert(spec_dec_fp(s@) is None);
                }
                return None;
            }
            seen_point = true;
            i = i + 1;
            proof {
                assert(scan_mant(s@, gi, gm, go, gf, gsp, gsd) == scan_mant(
                    s@,
                    i as int,
                    mant as int,
                    digits as int,
                    frac_digits as int,
                    seen_point,
                    seen_digit,
                ));
            }
        } else if c == 'e' || c == 'E' {
            at_e = true;
        } else if c == '0' || c == '1' || c == '2' || c == '3' || c == '4' || c == '5' || c
            == '6' || c == '7' || c == '8' || c == '9' {
            seen_digit = true;
            let d: u128 = digit_value(c);
            if mant < 10_000_000_000_000_000_000_000_000_000_000_000u128 {
                mant = mant * 10 + d;
                if seen_point {
                    if frac_digits < 1000 {
                        frac_digits = frac_digits + 1;
                    }
                }
            } else {
                // further digits beyond the precision kept
                if !seen_point {
                    if digits < 1000 {
                        digits = digits + 1;
                    }
                }
            }
            i = i + 1;
            proof {
                assert(is_dec_digit(s@[gi]));
                assert(scan_mant(s@, gi, gm, go, gf, gsp, gsd) == scan_mant(
                    s@,
                    i as int,
                    mant as int,
                    digits as int,
                    frac_digits as int,
                    seen_point,
                    seen_digit,
                ));
            }
        } else {
            proof {
                assert(!is_dec_digit(s@[gi]));
                assert(scan_mant(s@, gi, gm, go, gf, gsp, gsd) is None);
                assert(spec_dec_fp(s@) is None);
            }
            return None;
        }
    }
    if !seen_digit {
        proof {
            assert(scan_mant(
                s@,
                i as int,
                mant as int,
                digits as int,
                frac_digits as int,
                seen_point,
                seen_digit,
            ) is None);
            assert(spec_dec_fp(s@) is None);
        }
        return None;
    }
    let ghost stop = i as int;
    proof {
        assert(scan_mant(s@, start, 0, 0, 0, false, false) == Some(
            (stop, mant as int, digits as int, frac_digits as int),
        ));
    }
    // exponent
    let mut exp: i64 = 0;
    if i < n {
        // at the exponent marker
        i = i + 1;
        if i >= n {
            proof {
                assert(scan_exp(s@, stop + 1) is None);
                assert(scan_mant(s@, start, 0, 0, 0, false, false) == Some(
                    (stop, mant as int, digits as int, frac_digits as int),
                ));
                assert(start == (if s@[0] == '-' {
                    1int
                } else {
                    0int
                }));
                lemma_dec_fp_malformed_exp(
                    s@,
                    stop,
                    mant as int,
                    digits as int,
                    frac_digits as int,
                );
            }
            return None;
        }
        let mut exp_neg = false;
        let c0 = s.get_char(i);
        if c0 == '+' {
            i = i + 1;
        } else if c0 == '-' {
            exp_neg = true;
            i = i + 1;
        }
        if i >= n {
            proof {
                assert(scan_exp(s@, stop + 1) is None);
                assert(scan_mant(s@, start, 0, 0, 0, false, false) == Some(
                    (stop, mant as int, digits as int, frac_digits as int),
                ));
                assert(start == (if s@[0] == '-' {
                    1int
                } else {
                    0int
                }));
                lemma_dec_fp_malformed_exp(
                    s@,
                    stop,
                    mant as int,
                    digits as int,
                    frac_digits as int,
                );
            }
            return None;
        }
        let ghost jstart = i as int;
        proof {
            assert(exp_neg == (s@[stop + 1] == '-'));
            assert(scan_exp(s@, stop + 1) == (match scan_exp_digits(s@, jstart, 0, false) {
                None => None,
                Some(e) => Some(
                    if exp_neg {
                        -e
                    } else {
                        e
                    },
                ),
            }));
        }
        let mut any = false;
        while i < n
            invariant
                i <= n,
                n == s@.len(),
                n >= 1,
                neg == (s@[0] == '-'),
                start == (if neg { 1int } else { 0int }),
                scan_mant(s@, start, 0, 0, 0, false, false) == Some(
                    (stop, mant as int, digits as int, frac_digits as int),
                ),
                stop < s@.len(),
                0 <= exp <= 10009,
                scan_exp(s@, stop + 1) == (match scan_exp_digits(s@, jstart, 0, false) {
                    None => None,
                    Some(e) => Some(
                        if exp_neg {
                            -e
                        } else {
                            e
                        },
                    ),
                }),
                scan_exp_digits(s@, jstart, 0, false) == scan_exp_digits(
                    s@,
                    i as int,
                    exp as int,
                    any,
                ),
            decreases n - i,
        {
            let ghost (gi, ge, ga) = (i as int, exp as int, any);
            let c = s.get_char(i);
            if c == '0' || c == '1' || c == '2' || c == '3' || c == '4' || c == '5' || c == '6'
                || c == '7' || c == '8' || c == '9' {
                any = true;
                if exp < 1000 {
                    exp = exp * 10 + (digit_value(c) as i64);
                }
                i = i + 1;
                proof {
                    assert(is_dec_digit(s@[gi]));
                    assert(scan_exp_digits(s@, gi, ge, ga) == scan_exp_digits(
                        s@,
                        i as int,
                        exp as int,
                        any,
                    ));
                }
            } else {
                proof {
                    assert(!is_dec_digit(s@[gi]));
                    assert(scan_exp_digits(s@, gi, ge, ga) is None);
                    assert(scan_exp(s@, stop + 1) is None);
                    assert(scan_mant(s@, start, 0, 0, 0, false, false) == Some(
                    (stop, mant as int, digits as int, frac_digits as int),
                ));
                assert(start == (if s@[0] == '-' {
                    1int
                } else {
                    0int
                }));
                lemma_dec_fp_malformed_exp(
                        s@,
                        stop,
                        mant as int,
                        digits as int,
                        frac_digits as int,
                    );
                }
                return None;
            }
        }
        if !any {
            proof {
                assert(scan_exp_digits(s@, i as int, exp as int, any) is None);
                assert(scan_exp(s@, stop + 1) is None);
                assert(scan_mant(s@, start, 0, 0, 0, false, false) == Some(
                    (stop, mant as int, digits as int, frac_digits as int),
                ));
                assert(start == (if s@[0] == '-' {
                    1int
                } else {
                    0int
                }));
                lemma_dec_fp_malformed_exp(
                    s@,
                    stop,
                    mant as int,
                    digits as int,
                    frac_digits as int,
                );
            }
            return None;
        }
        proof {
            assert(scan_exp_digits(s@, i as int, exp as int, any) == Some(exp as int));
        }
        if exp_neg {
            exp = -exp;
        }
        proof {
            assert(scan_exp(s@, stop + 1) == Some(exp as int));
        }
    }
    proof {
        assert((if stop >= s@.len() {
            Some(0int)
        } else {
            scan_exp(s@, stop + 1)
        }) == Some(exp as int));
    }
    // value = mant * 10^(exp + dropped digits - frac_digits), scaled by 10^18
    let scale: i64 = 18 + exp + (digits as i64) - frac_digits;
    let mut fp: u128 = mant;
    let mut k: i64 = scale;
    let ghost mag_spec: int = if scale > 0 {
        scale_up(mant as int, scale as int)
    } else {
        scale_down(mant as int, scale as int)
    };
    proof {
        assert(spec_dec_fp(s@) == Some(
            (if (if mag_spec > FP_SAT as int {
                FP_SAT
            } else {
                mag_spec as i128
            }) == FP_SAT && mag_spec > FP_SAT as int {
                if neg {
                    (-FP_SAT) as i128
                } else {
                    FP_SAT
                }
            } else {
                if neg {
                    (-(if mag_spec > FP_SAT as int {
                        FP_SAT
                    } else {
                        mag_spec as i128
                    })) as i128
                } else {
                    (if mag_spec > FP_SAT as int {
                        FP_SAT
                    } else {
                        mag_spec as i128
                    })
                }
            }),
        ));
    }
    while k > 0 && fp != 0
        invariant
            scale as int > 0 ==> mag_spec == scale_up(fp as int, k as int) && 0 <= k,
            scale as int <= 0 ==> fp == mant && k == scale,
            mant < 0x1000_0000_0000_0000_0000_0000_0000_0000u128,
            spec_dec_fp(s@) == Some(
                if neg {
                    (-(if mag_spec > FP_SAT as int {
                        FP_SAT
                    } else {
                        mag_spec as i128
                    })) as i128
                } else {
                    (if mag_spec > FP_SAT as int {
                        FP_SAT
                    } else {
                        mag_spec as i128
                    })
                },
            ),
        decreases k,
    {
        let ghost (gfp, gk) = (fp as int, k as int);
        if fp > 0x2000_0000_0000_0000_0000_0000_0000_0000u128 / 16 {
            proof {
                assert(scale_up(gfp, gk) == FP_SAT as int + 1);
                assert(mag_spec == FP_SAT as int + 1);
            }
            // saturated past the domain bound
            return Some(if neg { -FP_SAT } else { FP_SAT });
        }
        fp = fp * 10;
        if fp > FP_SAT as u128 {
            proof {
                assert(scale_up(gfp, gk) == FP_SAT as int + 1);
                assert(mag_spec == FP_SAT as int + 1);
            }
            return Some(if neg { -FP_SAT } else { FP_SAT });
        }
        k = k - 1;
        proof {
            assert(scale as int > 0 ==> scale_up(gfp, gk) == scale_up(fp as int, k as int));
        }
    }
    proof {
        assert(mag_spec == scale_down(fp as int, k as int));
    }
    while k < 0 && fp != 0
        invariant
            mag_spec == scale_down(fp as int, k as int),
            spec_dec_fp(s@) == Some(
                if neg {
                    (-(if mag_spec > FP_SAT as int {
                        FP_SAT
                    } else {
                        mag_spec as i128
                    })) as i128
                } else {
                    (if mag_spec > FP_SAT as int {
                        FP_SAT
                    } else {
                        mag_spec as i128
                    })
                },
            ),
        decreases -k,
    {
        let ghost (gfp, gk) = (fp as int, k as int);
        fp = fp / 10;
        k = k + 1;
        proof {
            assert(scale_down(gfp, gk) == scale_down(fp as int, k as int));
        }
    }
    proof {
        assert(mag_spec == fp as int);
    }
    let capped: i128 = if fp > FP_SAT as u128 {
        FP_SAT
    } else {
        fp as i128
    };
    Some(if neg { -capped } else { capped })
}

fn digit_value(c: char) -> (r: u128)
    ensures
        r < 10,
        r as int == spec_digit(c),
{
    match c {
        '0' => 0,
        '1' => 1,
        '2' => 2,
        '3' => 3,
        '4' => 4,
        '5' => 5,
        '6' => 6,
        '7' => 7,
        '8' => 8,
        '9' => 9,
        _ => 0,
    }
}

/// The library rule value a JSON document scalar denotes: null, booleans
/// and strings directly, stored integers through the exact fixed-point
/// widening, stored non-integral numbers through their decimal literal,
/// and arrays or objects as the opaque non-matching value.
pub open spec fn spec_jsonval_of(d: JsonDocV) -> crate::json::JsonValV {
    match d {
        JsonDocV::Null => crate::json::JsonValV::Null,
        JsonDocV::Bool(b) => crate::json::JsonValV::Bool(b),
        JsonDocV::Num(JsonNumV::Int(n)) => crate::json::JsonValV::Num(
            crate::ieee754::fp_of_int(n),
        ),
        JsonDocV::Num(JsonNumV::Float(t)) => match spec_dec_fp(t) {
            Some(fp) => crate::json::JsonValV::Num(fp),
            None => crate::json::JsonValV::Other,
        },
        JsonDocV::Str(t) => crate::json::JsonValV::Str(t),
        JsonDocV::Arr(_) => crate::json::JsonValV::Other,
        JsonDocV::Obj(_) => crate::json::JsonValV::Other,
    }
}

/// Read one JSON scalar into the library's rule value.
fn jsonval_from_value(v: &serde_json::Value) -> (r: JsonVal)
    ensures
        r@ == spec_jsonval_of(value_doc(*v)),
{
    if json_is_null(v) {
        return JsonVal::Null;
    }
    if let Some(b) = json_as_bool(v) {
        return JsonVal::Bool(b);
    }
    if let Some(x) = json_as_i64(v) {
        return JsonVal::Num(crate::ieee754::fp_from_i128(x as i128));
    }
    if let Some(x) = json_as_u64(v) {
        return JsonVal::Num(crate::ieee754::fp_from_u128(x as u128));
    }
    if json_is_number(v) {
        let text = json_value_text(v);
        return match parse_decimal_fp(text.as_str()) {
            Some(fp) => JsonVal::Num(fp),
            None => JsonVal::Other,
        };
    }
    if let Some(s) = json_as_str(v) {
        return JsonVal::Str(s.to_owned());
    }
    JsonVal::Other
}

/// The spec-level outcome a rule parse carries.
pub open spec fn rule_result_view(r: Result<JsonCondition, JsonParseError>) -> Result<
    crate::json::JsonConditionV,
    JsonParseErrorV,
> {
    match r {
        Ok(c) => Ok(c@),
        Err(e) => Err(e@),
    }
}

/// The spec-level outcome a tree parse carries.
pub open spec fn tree_result_view(r: Result<JsonNestedCondition, JsonParseError>) -> Result<
    crate::json::JsonTreeV,
    JsonParseErrorV,
> {
    match r {
        Ok(t) => Ok(crate::json::tree_view(t)),
        Err(e) => Err(e@),
    }
}

/// Prepend already-parsed rules to the outcome of parsing the rest.
pub open spec fn prepend_rules(
    pre: Seq<crate::json::JsonConditionV>,
    r: Result<Seq<crate::json::JsonConditionV>, JsonParseErrorV>,
) -> Result<Seq<crate::json::JsonConditionV>, JsonParseErrorV> {
    match r {
        Ok(rest) => Ok(pre + rest),
        Err(e) => Err(e),
    }
}

/// Prepend already-parsed child trees to the outcome of parsing the rest.
pub open spec fn prepend_trees(
    pre: Seq<crate::json::JsonTreeV>,
    r: Result<Seq<crate::json::JsonTreeV>, JsonParseErrorV>,
) -> Result<Seq<crate::json::JsonTreeV>, JsonParseErrorV> {
    match r {
        Ok(rest) => Ok(pre + rest),
        Err(e) => Err(e),
    }
}

/// Read one rule object: "field" and "operator" are required strings, the
/// operator must be a wire operator name, and a missing "value" is null.
fn rule_from_value(v: &serde_json::Value) -> (r: Result<JsonCondition, JsonParseError>)
    ensures
        rule_result_view(r) == spec_rule_of_doc(value_doc(*v)),
{
    if !json_is_object(v) {
        return Err(JsonParseError::NotAnObject);
    }
    let ghost m = value_doc(*v)->Obj_0;
    let field = match json_get(v, "field") {
        Some(f) => match json_as_str(f) {
            Some(t) => t.to_owned(),
            None => {
                return Err(JsonParseError::MissingField);
            },
        },
        None => {
            return Err(JsonParseError::MissingField);
        },
    };
    proof {
        assert(m.contains_key("field"@) && m["field"@] is Str && m["field"@]->Str_0 == field@);
    }
    let operator = match json_get(v, "operator") {
        Some(o) => match json_as_str(o) {
            Some(t) => match crate::condition::parse_operator(t) {
                Some(op) => op,
                None => {
                    proof {
                        assert(spec_rule_of_doc(value_doc(*v)) == Err::<
                            crate::json::JsonConditionV,
                            JsonParseErrorV,
                        >(JsonParseErrorV::UnknownOperator(t@)));
                    }
                    return Err(JsonParseError::UnknownOperator(t.to_owned()));
                },
            },
            None => {
                return Err(JsonParseError::MissingOperator);
            },
        },
        None => {
            return Err(JsonParseError::MissingOperator);
        },
    };
    let value = match json_get(v, "value") {
        Some(x) => jsonval_from_value(x),
        None => JsonVal::Null,
    };
    let r = JsonCondition { field, operator, value };
    proof {
        assert(rule_result_view(Ok(r)) == spec_rule_of_doc(value_doc(*v)));
    }
    Ok(r)
}

/// Parse every rule of an array of document nodes, in order; the first
/// failure wins.
fn rules_from_array(
    arr: &Vec<serde_json::Value>,
    Ghost(elems): Ghost<Seq<JsonDocV>>,
) -> (r: Result<Vec<JsonCondition>, JsonParseError>)
    requires
        arr@.len() == elems.len(),
        forall|k: int| 0 <= k < arr@.len() ==> value_doc(#[trigger] arr@[k]) == elems[k],
    ensures
        match r {
            Ok(rules) => spec_rules_of(elems, 0) == Ok::<_, JsonParseErrorV>(
                rules.deep_view(),
            ),
            Err(e) => spec_rules_of(elems, 0) == Err::<Seq<crate::json::JsonConditionV>, _>(
                e@,
            ),
        },
{
    let mut rules: Vec<JsonCondition> = Vec::new();
    let mut i: usize = 0;
    proof {
        assert(rules.deep_view() =~= Seq::<crate::json::JsonConditionV>::empty());
        match spec_rules_of(elems, 0) {
            Ok(rest) => {
                assert(rules.deep_view() + rest =~= rest);
            },
            Err(_) => {},
        }
        assert(prepend_rules(rules.deep_view(), spec_rules_of(elems, i as int))
            == spec_rules_of(elems, 0));
    }
    while i < arr.len()
        invariant
            i <= arr@.len(),
            arr@.len() == elems.len(),
            forall|k: int| 0 <= k < arr@.len() ==> value_doc(#[trigger] arr@[k]) == elems[k],
            prepend_rules(rules.deep_view(), spec_rules_of(elems, i as int))
                == spec_rules_of(elems, 0),
        decreases arr@.len() - i,
    {
        let ghost rules_before = rules.deep_view();
        match rule_from_value(&arr[i]) {
            Ok(rule) => {
                rules.push(rule);
                proof {
                    assert(rules.deep_view() =~= rules_before.push(
                        spec_rule_of_doc(elems[i as int])->Ok_0,
                    ));
                    match spec_rules_of(elems, i as int + 1) {
                        Ok(rest) => {
                            assert(rules_before + (seq![
                                spec_rule_of_doc(elems[i as int])->Ok_0,
                            ] + rest) =~= rules.deep_view() + rest);
                        },
                        Err(_) => {},
                    }
                    assert(prepend_rules(rules.deep_view(), spec_rules_of(elems, i as int + 1))
                        == spec_rules_of(elems, 0));
                }
            },
            Err(e) => {
                proof {
                    assert(spec_rules_of(elems, 0) == Err::<
                        Seq<crate::json::JsonConditionV>,
                        JsonParseErrorV,
                    >(e@));
                }
                return Err(e);
            },
        }
        i = i + 1;
    }
    proof {
        assert(spec_rules_of(elems, arr@.len() as int) == Ok::<
            Seq<crate::json::JsonConditionV>,
            JsonParseErrorV,
        >(Seq::empty()));
        assert(rules.deep_view() + Seq::<crate::json::JsonConditionV>::empty()
            =~= rules.deep_view());
    }
    Ok(rules)
}

/// Parse every child tree of an array of document nodes, in order, each at
/// nesting depth `depth`; the first failure wins.
fn trees_from_array(
    arr: &Vec<serde_json::Value>,
    Ghost(elems): Ghost<Seq<JsonDocV>>,
    depth: u64,
) -> (r: Result<Vec<JsonNestedCondition>, JsonParseError>)
    requires
        arr@.len() == elems.len(),
        forall|k: int| 0 <= k < arr@.len() ==> value_doc(#[trigger] arr@[k]) == elems[k],
    ensures
        match r {
            Ok(trees) => spec_trees_of(elems, 0, depth as int) == Ok::<_, JsonParseErrorV>(
                trees.deep_view(),
            ),
            Err(e) => spec_trees_of(elems, 0, depth as int) == Err::<
                Seq<crate::json::JsonTreeV>,
                _,
            >(e@),
        },
    decreases depth, 1int,
{
    let mut trees: Vec<JsonNestedCondition> = Vec::new();
    let mut i: usize = 0;
    proof {
        assert(trees.deep_view() =~= Seq::<crate::json::JsonTreeV>::empty());
        match spec_trees_of(elems, 0, depth as int) {
            Ok(rest) => {
                assert(trees.deep_view() + rest =~= rest);
            },
            Err(_) => {},
        }
        assert(prepend_trees(trees.deep_view(), spec_trees_of(elems, i as int, depth as int))
            == spec_trees_of(elems, 0, depth as int));
    }
    while i < arr.len()
        invariant
            i <= arr@.len(),
            arr@.len() == elems.len(),
            forall|k: int| 0 <= k < arr@.len() ==> value_doc(#[trigger] arr@[k]) == elems[k],
            prepend_trees(trees.deep_view(), spec_trees_of(elems, i as int, depth as int))
                == spec_trees_of(elems, 0, depth as int),
        decreases arr@.len() - i,
    {
        let ghost trees_before = trees.deep_view();
        match group_from_value(&arr[i], depth) {
            Ok(sub) => {
                trees.push(sub);
                proof {
                    assert(trees.deep_view() =~= trees_before.push(
                        spec_tree_of_doc(elems[i as int], depth as int)->Ok_0,
                    ));
                    match spec_trees_of(elems, i as int + 1, depth as int) {
                        Ok(rest) => {
                            assert(trees_before + (seq![
                                spec_tree_of_doc(elems[i as int], depth as int)->Ok_0,
                            ] + rest) =~= trees.deep_view() + rest);
                        },
                        Err(_) => {},
                    }
                    assert(prepend_trees(
                        trees.deep_view(),
                        spec_trees_of(elems, i as int + 1, depth as int),
                    ) == spec_trees_of(elems, 0, depth as int));
                }
            },
            Err(e) => {
                proof {
                    assert(spec_trees_of(elems, 0, depth as int) == Err::<
                        Seq<crate::json::JsonTreeV>,
                        JsonParseErrorV,
                    >(e@));
                }
                return Err(e);
            },
        }
        i = i + 1;
    }
    proof {
        assert(spec_trees_of(elems, arr@.len() as int, depth as int) == Ok::<
            Seq<crate::json::JsonTreeV>,
            JsonParseErrorV,
        >(Seq::empty()));
        assert(trees.deep_view() + Seq::<crate::json::JsonTreeV>::empty()
            =~= trees.deep_view());
    }
    Ok(trees)
}

/// Read one tree node: its mode (default AND), its rules, and its nested
/// child trees, recursively, to a bounded depth.
fn group_from_value(v: &serde_json::Value, depth: u64) -> (r: Result<
    JsonNestedCondition,
    JsonParseError,
>)
    ensures
        tree_result_view(r) == spec_tree_of_doc(value_doc(*v), depth as int),
    decreases depth, 0int,
{
    if depth == 0 {
        return Err(JsonParseError::TooDeep);
    }
    if !json_is_object(v) {
        return Err(JsonParseError::NotAnObject);
    }
    let ghost m = value_doc(*v)->Obj_0;
    let ghost spec_result = spec_tree_of_doc(value_doc(*v), depth as int);
    let mode_val = match json_get(v, "mode") {
        Some(mv) => Some(mv),
        None => match json_get(v, "logic") {
            Some(mv) => Some(mv),
            None => json_get(v, "comparator"),
        },
    };
    proof {
        assert((match mode_val {
            Some(x) => Some(value_doc(*x)),
            None => None,
        }) == (if m.contains_key("mode"@) {
            Some(m["mode"@])
        } else if m.contains_key("logic"@) {
            Some(m["logic"@])
        } else if m.contains_key("comparator"@) {
            Some(m["comparator"@])
        } else {
            None::<JsonDocV>
        }));
    }
    let mode = match mode_val {
        Some(mv) => match json_as_str(mv) {
            Some(name) => match crate::condition::parse_mode(name) {
                Some(md) => md,
                None => {
                    proof {
                        assert(spec_result == Err::<crate::json::JsonTreeV, JsonParseErrorV>(
                            JsonParseErrorV::UnknownMode(name@),
                        ));
                    }
                    return Err(JsonParseError::UnknownMode(name.to_owned()));
                },
            },
            None => {
                let empty_name = String::new();
                proof {
                    assert(empty_name@ =~= Seq::<char>::empty());
                    assert(spec_result == Err::<crate::json::JsonTreeV, JsonParseErrorV>(
                        JsonParseErrorV::UnknownMode(Seq::empty()),
                    ));
                }
                return Err(JsonParseError::UnknownMode(empty_name));
            },
        },
        None => ConditionMode::AND,
    };
    let mut rules: Vec<JsonCondition> = Vec::new();
    if let Some(rv) = json_get(v, "rules") {
        match json_as_array(rv) {
            Some(arr) => {
                match rules_from_array(arr, Ghost(value_doc(*rv)->Arr_0)) {
                    Ok(rs) => {
                        rules = rs;
                    },
                    Err(e) => {
                        proof {
                            assert(spec_result == Err::<
                                crate::json::JsonTreeV,
                                JsonParseErrorV,
                            >(e@));
                        }
                        return Err(e);
                    },
                }
            },
            None => {
                proof {
                    assert(spec_result == Err::<crate::json::JsonTreeV, JsonParseErrorV>(
                        JsonParseErrorV::NotAnArray,
                    ));
                }
                return Err(JsonParseError::NotAnArray);
            },
        }
    }
    proof {
        if !m.contains_key("rules"@) {
            assert(Seq::<crate::json::JsonConditionV>::empty() =~= rules.deep_view());
        }
    }
    let nested_val = match json_get(v, "nested") {
        Some(mv) => Some(mv),
        None => match json_get(v, "nested_rules") {
            Some(mv) => Some(mv),
            None => json_get(v, "nested_conditions"),
        },
    };
    proof {
        assert((match nested_val {
            Some(x) => Some(value_doc(*x)),
            None => None,
        }) == (if m.contains_key("nested"@) {
            Some(m["nested"@])
        } else if m.contains_key("nested_rules"@) {
            Some(m["nested_rules"@])
        } else if m.contains_key("nested_conditions"@) {
            Some(m["nested_conditions"@])
        } else {
            None::<JsonDocV>
        }));
    }
    let mut nested: Vec<JsonNestedCondition> = Vec::new();
    if let Some(nv) = nested_val {
        match json_as_array(nv) {
            Some(arr) => {
                match trees_from_array(arr, Ghost(value_doc(*nv)->Arr_0), depth - 1) {
                    Ok(ts) => {
                        nested = ts;
                    },
                    Err(e) => {
                        proof {
                            assert(spec_result == Err::<
                                crate::json::JsonTreeV,
                                JsonParseErrorV,
                            >(e@));
                        }
                        return Err(e);
                    },
                }
            },
            None => {
                proof {
                    assert(spec_result == Err::<crate::json::JsonTreeV, JsonParseErrorV>(
                        JsonParseErrorV::NotAnArray,
                    ));
                }
                return Err(JsonParseError::NotAnArray);
            },
        }
    }
    proof {
        if nested_val is None {
            assert(Seq::<crate::json::JsonTreeV>::empty() =~= nested.deep_view());
        }
    }
    let t = JsonNestedCondition { mode, rules, nested };
    proof {
        crate::json::lemma_trees_view_pointwise(t.nested@);
        assert(crate::json::trees_view(t.nested@) =~= t.nested.deep_view());
        assert(crate::json::tree_view(t) == crate::json::JsonTreeV {
            mode: mode,
            rules: t.rules.deep_view(),
            nested: t.nested.deep_view(),
        });
        assert(tree_result_view(Ok(t)) == spec_result);
    }
    Ok(t)
}

/// A matcher for JSON-deserialized conditions: owns one root group parsed
/// from JSON text or an already-parsed JSON value. Construction on
/// malformed JSON fails with a hard error; evaluation never does.
pub struct JsonMatcher(pub JsonNestedCondition);

impl JsonMatcher {
    /// Parse a matcher from a JSON string. Text that is not valid JSON is
    /// a hard `InvalidJson` error; text that is valid JSON parses exactly
    /// when its document denotes a wire-shape tree, the matcher then owns
    /// that tree, and each malformed shape reports its own error.
    pub fn from_json(json: &str) -> (r: Result<JsonMatcher, JsonParseError>)
        ensures
            json_doc_of(json@) is None ==> (r matches Err(e) && e@ is InvalidJson),
            json_doc_of(json@) matches Some(d) ==> (match r {
                Ok(m) => spec_tree_of_doc(d, 128) == Ok::<_, JsonParseErrorV>(
                    crate::json::tree_view(m.0),
                ),
                Err(e) => spec_tree_of_doc(d, 128) == Err::<crate::json::JsonTreeV, _>(e@),
            }),
    {
        match json_parse_text(json) {
            Ok(v) => Self::from_value(v),
            Err(e) => Err(JsonParseError::InvalidJson(json_error_text(&e))),
        }
    }

    /// Parse a matcher from an already-parsed JSON value: success exactly
    /// when the value's document denotes a wire-shape tree, the matcher
    /// then owning that tree.
    pub fn from_value(value: serde_json::Value) -> (r: Result<JsonMatcher, JsonParseError>)
        ensures
            match r {
                Ok(m) => spec_tree_of_doc(value_doc(value), 128) == Ok::<_, JsonParseErrorV>(
                    crate::json::tree_view(m.0),
                ),
                Err(e) => spec_tree_of_doc(value_doc(value), 128) == Err::<
                    crate::json::JsonTreeV,
                    _,
                >(e@),
            },
    {
        match group_from_value(&value, 128) {
            Ok(g) => Ok(JsonMatcher(g)),
            Err(e) => Err(e),
        }
    }

    /// Create from an existing condition tree.
    pub fn from_condition(condition: JsonNestedCondition) -> (r: Self)
        ensures
            r.0 == condition,
    {
        JsonMatcher(condition)
    }

    /// The underlying condition tree.
    pub fn condition(&self) -> (r: &JsonNestedCondition)
        ensures
            r == &self.0,
    {
        &self.0
    }
}

impl<T: Matchable> Matcher<T> for JsonMatcher {
    /// The matcher's verdict is its root group's aggregate verdict.
    open spec fn spec_matches(&self, value: T) -> bool {
        spec_json_matched(self.0, value)
    }

    open spec fn spec_mode(&self) -> ConditionMode {
        self.0.mode
    }

    fn matches(&self, value: &T) -> (r: bool) {
        JsonEvaluator::evaluate(&self.0, value).matched
    }

    fn mode(&self) -> (r: ConditionMode) {
        self.0.mode
    }
}

impl<T: Matchable> Evaluate<T> for JsonMatcher {
    type Output = JsonEvalResult;

    /// Evaluate with full details: the aggregate verdict and one row per
    /// rule, depth-first.
    fn evaluate(&self, value: &T) -> (r: JsonEvalResult)
        ensures
            r.matched == spec_json_matched(self.0, *value),
            r.details.deep_view() == crate::json::spec_json_details(self.0, *value),
    {
        JsonEvaluator::evaluate(&self.0, value)
    }
}


} // verus!


//! The scalar comparison dispatcher: recovers both operands at the same
//! concrete kind and compares them there. Widths are never unified — a
//! 32-bit field never compares against a 64-bit literal — and a pair with
//! no common kind fails closed.
use vstd::prelude::*;
use crate::condition::ConditionOperator;
use crate::ieee754::{bits32_eq, bits32_lt, bits64_eq, bits64_lt, f32_bits_eq, f32_bits_lt,
    f64_bits_eq, f64_bits_lt};
use crate::scalar::Scalar;
use crate::text::{seq_contains_sub, seq_ends_with, seq_starts_with, seq_str_lt, str_contains,
    str_ends_with, str_eq, str_lt, str_starts_with};

verus! {

/// The six relational operators over mathematical integers; None for any
/// other operator.
pub open spec fn rel_of_ints(a: int, b: int, op: ConditionOperator) -> Option<bool> {
    match op {
        ConditionOperator::Equals => Some(a == b),
        ConditionOperator::NotEquals => Some(a != b),
        ConditionOperator::GreaterThan => Some(a > b),
        ConditionOperator::LessThan => Some(a < b),
        ConditionOperator::GreaterThanOrEqual => Some(a >= b),
        ConditionOperator::LessThanOrEqual => Some(a <= b),
        _ => None,
    }
}

/// The six relational operators on 64-bit IEEE-754 patterns.
pub open spec fn rel_of_bits64(a: u64, b: u64, op: ConditionOperator) -> Option<bool> {
    match op {
        ConditionOperator::Equals => Some(bits64_eq(a, b)),
        ConditionOperator::NotEquals => Some(!bits64_eq(a, b)),
        ConditionOperator::GreaterThan => Some(bits64_lt(b, a)),
        ConditionOperator::LessThan => Some(bits64_lt(a, b)),
        ConditionOperator::GreaterThanOrEqual => Some(bits64_lt(b, a) || bits64_eq(a, b)),
        ConditionOperator::LessThanOrEqual => Some(bits64_lt(a, b) || bits64_eq(a, b)),
        _ => None,
    }
}

/// The six relational operators on 32-bit IEEE-754 patterns.
pub open spec fn rel_of_bits32(a: u32, b: u32, op: ConditionOperator) -> Option<bool> {
    match op {
        ConditionOperator::Equals => Some(bits32_eq(a, b)),
        ConditionOperator::NotEquals => Some(!bits32_eq(a, b)),
        ConditionOperator::GreaterThan => Some(bits32_lt(b, a)),
        ConditionOperator::LessThan => Some(bits32_lt(a, b)),
        ConditionOperator::GreaterThanOrEqual => Some(bits32_lt(b, a) || bits32_eq(a, b)),
        ConditionOperator::LessThanOrEqual => Some(bits32_lt(a, b) || bits32_eq(a, b)),
        _ => None,
    }
}

/// What a regular-expression match returns for a pattern and a text. The
/// result is a function of the two strings alone; a pattern that does not
/// compile matches nothing.
pub uninterp spec fn regex_accepts(pattern: Seq<char>, text: Seq<char>) -> bool;

/// Relies on regex::Regex::new and regex::Regex::is_match: whether the
/// pattern compiles and matches somewhere in the text; a pattern the engine
/// rejects matches nothing.
#[verifier::external_body]
pub fn regex_is_match(pattern: &str, text: &str) -> (r: bool)
    ensures
        r == regex_accepts(pattern@, text@),
{
    match regex::Regex::new(pattern) {
        Ok(re) => re.is_match(text),
        Err(_) => false,
    }
}

/// String comparison under an operator: the relational operators compare
/// lexicographically, the string operators test containment and affixes,
/// emptiness checks read the length, and regular expressions go through the
/// engine. None for the operators that do not apply to strings.
pub open spec fn rel_of_strings(a: Seq<char>, b: Seq<char>, op: ConditionOperator) -> Option<
    bool,
> {
    match op {
        ConditionOperator::Equals => Some(a == b),
        ConditionOperator::NotEquals => Some(a != b),
        ConditionOperator::Contains => Some(seq_contains_sub(a, b)),
        ConditionOperator::NotContains => Some(!seq_contains_sub(a, b)),
        ConditionOperator::StartsWith => Some(seq_starts_with(a, b)),
        ConditionOperator::EndsWith => Some(seq_ends_with(a, b)),
        ConditionOperator::GreaterThan => Some(seq_str_lt(b, a)),
        ConditionOperator::LessThan => Some(seq_str_lt(a, b)),
        ConditionOperator::GreaterThanOrEqual => Some(!seq_str_lt(a, b)),
        ConditionOperator::LessThanOrEqual => Some(!seq_str_lt(b, a)),
        ConditionOperator::IsEmpty => Some(a.len() == 0),
        ConditionOperator::IsNotEmpty => Some(a.len() != 0),
        ConditionOperator::Regex => Some(regex_accepts(b, a)),
        _ => None,
    }
}

/// Booleans order as false below true.
pub open spec fn bool_int(b: bool) -> int {
    if b {
        1
    } else {
        0
    }
}

/// The outcome of comparing two type-erased scalars: the verdict and the
/// two display strings. A pair with no common kind, or a kind that does not
/// support the operator, yields a failed verdict and no displays.
pub open spec fn spec_compare_any(a: Scalar, e: Scalar, op: ConditionOperator) -> (
    bool,
    Option<Seq<char>>,
    Option<Seq<char>>,
) {
    let hit: Option<bool> = match (a, e) {
        (Scalar::I8(x), Scalar::I8(y)) => rel_of_ints(x as int, y as int, op),
        (Scalar::I16(x), Scalar::I16(y)) => rel_of_ints(x as int, y as int, op),
        (Scalar::I32(x), Scalar::I32(y)) => rel_of_ints(x as int, y as int, op),
        (Scalar::I64(x), Scalar::I64(y)) => rel_of_ints(x as int, y as int, op),
        (Scalar::I128(x), Scalar::I128(y)) => rel_of_ints(x as int, y as int, op),
        (Scalar::Isize(x), Scalar::Isize(y)) => rel_of_ints(x as int, y as int, op),
        (Scalar::U8(x), Scalar::U8(y)) => rel_of_ints(x as int, y as int, op),
        (Scalar::U16(x), Scalar::U16(y)) => rel_of_ints(x as int, y as int, op),
        (Scalar::U32(x), Scalar::U32(y)) => rel_of_ints(x as int, y as int, op),
        (Scalar::U64(x), Scalar::U64(y)) => rel_of_ints(x as int, y as int, op),
        (Scalar::U128(x), Scalar::U128(y)) => rel_of_ints(x as int, y as int, op),
        (Scalar::Usize(x), Scalar::Usize(y)) => rel_of_ints(x as int, y as int, op),
        (Scalar::F32Bits(x), Scalar::F32Bits(y)) => rel_of_bits32(x, y, op),
        (Scalar::F64Bits(x), Scalar::F64Bits(y)) => rel_of_bits64(x, y, op),
        (Scalar::Bool(x), Scalar::Bool(y)) => rel_of_ints(bool_int(x), bool_int(y), op),
        (Scalar::Char(x), Scalar::Char(y)) => rel_of_ints(x as int, y as int, op),
        (Scalar::Str(x), Scalar::Str(y)) => rel_of_strings(x@, y@, op),
        _ => None,
    };
    match hit {
        Some(passed) => (passed, Some(a.display_view()), Some(e.display_view())),
        None => (false, None, None),
    }
}

/// The verdict alone.
pub open spec fn spec_compare_passed(a: Scalar, e: Scalar, op: ConditionOperator) -> bool {
    spec_compare_any(a, e, op).0
}

fn rel_i128(x: i128, y: i128, op: &ConditionOperator) -> (r: Option<bool>)
    ensures
        r == rel_of_ints(x as int, y as int, *op),
{
    match op {
        ConditionOperator::Equals => Some(x == y),
        ConditionOperator::NotEquals => Some(x != y),
        ConditionOperator::GreaterThan => Some(x > y),
        ConditionOperator::LessThan => Some(x < y),
        ConditionOperator::GreaterThanOrEqual => Some(x >= y),
        ConditionOperator::LessThanOrEqual => Some(x <= y),
        _ => None,
    }
}

fn rel_u128(x: u128, y: u128, op: &ConditionOperator) -> (r: Option<bool>)
    ensures
        r == rel_of_ints(x as int, y as int, *op),
{
    match op {
        ConditionOperator::Equals => Some(x == y),
        ConditionOperator::NotEquals => Some(x != y),
        ConditionOperator::GreaterThan => Some(x > y),
        ConditionOperator::LessThan => Some(x < y),
        ConditionOperator::GreaterThanOrEqual => Some(x >= y),
        ConditionOperator::LessThanOrEqual => Some(x <= y),
        _ => None,
    }
}

fn rel_b64(x: u64, y: u64, op: &ConditionOperator) -> (r: Option<bool>)
    ensures
        r == rel_of_bits64(x, y, *op),
{
    match op {
        ConditionOperator::Equals => Some(f64_bits_eq(x, y)),
        ConditionOperator::NotEquals => Some(!f64_bits_eq(x, y)),
        ConditionOperator::GreaterThan => Some(f64_bits_lt(y, x)),
        ConditionOperator::LessThan => Some(f64_bits_lt(x, y)),
        ConditionOperator::GreaterThanOrEqual => Some(
            f64_bits_lt(y, x) || f64_bits_eq(x, y),
        ),
        ConditionOperator::LessThanOrEqual => Some(f64_bits_lt(x, y) || f64_bits_eq(x, y)),
        _ => None,
    }
}

fn rel_b32(x: u32, y: u32, op: &ConditionOperator) -> (r: Option<bool>)
    ensures
        r == rel_of_bits32(x, y, *op),
{
    match op {
        ConditionOperator::Equals => Some(f32_bits_eq(x, y)),
        ConditionOperator::NotEquals => Some(!f32_bits_eq(x, y)),
        ConditionOperator::GreaterThan => Some(f32_bits_lt(y, x)),
        ConditionOperator::LessThan => Some(f32_bits_lt(x, y)),
        ConditionOperator::GreaterThanOrEqual => Some(
            f32_bits_lt(y, x) || f32_bits_eq(x, y),
        ),
        ConditionOperator::LessThanOrEqual => Some(f32_bits_lt(x, y) || f32_bits_eq(x, y)),
        _ => None,
    }
}

/// Compare two string scalars under an operator, with their display texts,
/// as the dispatcher does for the string kind; None when neither the
/// relational nor the string operators apply.
pub fn try_compare_strings(a: &str, e: &str, op: &ConditionOperator) -> (r: Option<
    (bool, Option<String>, Option<String>),
>)
    ensures
        r is Some <==> rel_of_strings(a@, e@, *op) is Some,
        r matches Some(t) ==> {
            &&& Some(t.0) == rel_of_strings(a@, e@, *op)
            &&& t.1 matches Some(d) && d@ == a@
            &&& t.2 matches Some(d) && d@ == e@
        },
{
    match str_rel(a, e, op) {
        Some(passed) => Some((passed, Some(a.to_owned()), Some(e.to_owned()))),
        None => None,
    }
}

/// The verdict of a string comparison under an operator, if it applies.
fn str_rel(a: &str, e: &str, op: &ConditionOperator) -> (r: Option<bool>)
    ensures
        r == rel_of_strings(a@, e@, *op),
{
    match op {
        ConditionOperator::Equals => Some(str_eq(a, e)),
        ConditionOperator::NotEquals => Some(!str_eq(a, e)),
        ConditionOperator::Contains => Some(str_contains(a, e)),
        ConditionOperator::NotContains => Some(!str_contains(a, e)),
        ConditionOperator::StartsWith => Some(str_starts_with(a, e)),
        ConditionOperator::EndsWith => Some(str_ends_with(a, e)),
        ConditionOperator::GreaterThan => Some(str_lt(e, a)),
        ConditionOperator::LessThan => Some(str_lt(a, e)),
        ConditionOperator::GreaterThanOrEqual => Some(!str_lt(a, e)),
        ConditionOperator::LessThanOrEqual => Some(!str_lt(e, a)),
        ConditionOperator::IsEmpty => Some(a.unicode_len() == 0),
        ConditionOperator::IsNotEmpty => Some(a.unicode_len() != 0),
        ConditionOperator::Regex => Some(regex_is_match(e, a)),
        _ => None,
    }
}

/// Compare two type-erased scalars under an operator. Returns the verdict
/// together with both display strings; a pair with no common kind, or an
/// operator the common kind does not support, fails closed with no displays.
pub fn compare_any_values(a: &Scalar, e: &Scalar, op: &ConditionOperator) -> (r: (
    bool,
    Option<String>,
    Option<String>,
))
    ensures
        ({
            let s = spec_compare_any(*a, *e, *op);
            r.0 == s.0 && (r.1 is Some <==> s.1 is Some) && (r.2 is Some <==> s.2 is Some)
                && (r.1 is Some ==> r.1.unwrap()@ == s.1.unwrap()) && (r.2 is Some
                ==> r.2.unwrap()@ == s.2.unwrap())
        }),
{
    let hit: Option<bool> = match (a, e) {
        (Scalar::I8(x), Scalar::I8(y)) => rel_i128(*x as i128, *y as i128, op),
        (Scalar::I16(x), Scalar::I16(y)) => rel_i128(*x as i128, *y as i128, op),
        (Scalar::I32(x), Scalar::I32(y)) => rel_i128(*x as i128, *y as i128, op),
        (Scalar::I64(x), Scalar::I64(y)) => rel_i128(*x as i128, *y as i128, op),
        (Scalar::I128(x), Scalar::I128(y)) => rel_i128(*x, *y, op),
        (Scalar::Isize(x), Scalar::Isize(y)) => rel_i128(*x as i128, *y as i128, op),
        (Scalar::U8(x), Scalar::U8(y)) => rel_u128(*x as u128, *y as u128, op),
        (Scalar::U16(x), Scalar::U16(y)) => rel_u128(*x as u128, *y as u128, op),
        (Scalar::U32(x), Scalar::U32(y)) => rel_u128(*x as u128, *y as u128, op),
        (Scalar::U64(x), Scalar::U64(y)) => rel_u128(*x as u128, *y as u128, op),
        (Scalar::U128(x), Scalar::U128(y)) => rel_u128(*x, *y, op),
        (Scalar::Usize(x), Scalar::Usize(y)) => rel_u128(*x as u128, *y as u128, op),
        (Scalar::F32Bits(x), Scalar::F32Bits(y)) => rel_b32(*x, *y, op),
        (Scalar::F64Bits(x), Scalar::F64Bits(y)) => rel_b64(*x, *y, op),
        (Scalar::Bool(x), Scalar::Bool(y)) => rel_u128(
            if *x {
                1
            } else {
                0
            },
            if *y {
                1
            } else {
                0
            },
            op,
        ),
        (Scalar::Char(x), Scalar::Char(y)) => rel_u128(*x as u128, *y as u128, op),
        (Scalar::Str(x), Scalar::Str(y)) => str_rel(x.as_str(), y.as_str(), op),
        _ => None,
    };
    match hit {
        Some(passed) => (passed, Some(a.display()), Some(e.display())),
        None => (false, None, None),
    }
}

/// Compare two lengths under an operator: the relational operators apply,
/// every other operator is false.
pub open spec fn spec_compare_numeric(a: int, e: int, op: ConditionOperator) -> bool {
    match rel_of_ints(a, e, op) {
        Some(p) => p,
        None => false,
    }
}

/// Numeric comparison of two lengths with an operator.
pub fn compare_numeric(actual: usize, expected: usize, operator: &ConditionOperator) -> (r:
    bool)
    ensures
        r == spec_compare_numeric(actual as int, expected as int, *operator),
{
    match rel_u128(actual as u128, expected as u128, operator) {
        Some(p) => p,
        None => false,
    }
}

/// No pair of scalars of different kinds ever compares: the dispatcher
/// fails closed on them, whatever the operator.
pub proof fn lemma_cross_kind_fails(a: Scalar, e: Scalar, op: ConditionOperator)
    requires
        !a.same_kind(e),
    ensures
        spec_compare_any(a, e, op) == (false, None::<Seq<char>>, None::<Seq<char>>),
{
}

} // verus!

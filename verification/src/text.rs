//! String helpers: decimal rendering of integers, and substring
//! predicates, each pinned to a spec-level definition over sequences of
//! characters.
use vstd::prelude::*;

verus! {

/// The character for a single decimal digit value.
pub open spec fn dig_char(d: int) -> char {
    if d == 0 {
        '0'
    } else if d == 1 {
        '1'
    } else if d == 2 {
        '2'
    } else if d == 3 {
        '3'
    } else if d == 4 {
        '4'
    } else if d == 5 {
        '5'
    } else if d == 6 {
        '6'
    } else if d == 7 {
        '7'
    } else if d == 8 {
        '8'
    } else {
        '9'
    }
}

/// Decimal rendering of a non-negative integer, most significant digit first.
pub open spec fn udec(n: int) -> Seq<char>
    decreases n,
{
    if n < 10 {
        seq![dig_char(n)]
    } else {
        udec(n / 10) + seq![dig_char(n % 10)]
    }
}

/// Decimal rendering of a signed integer, with a leading minus sign when negative.
pub open spec fn idec(n: int) -> Seq<char> {
    if n < 0 {
        seq!['-'] + udec(-n)
    } else {
        udec(n)
    }
}

/// `needle` occurs as a contiguous substring of `hay`.
pub open spec fn seq_contains_sub(hay: Seq<char>, needle: Seq<char>) -> bool {
    exists|i: int|
        0 <= i && i + needle.len() <= hay.len() && #[trigger] hay.subrange(
            i,
            i + needle.len() as int,
        ) =~= needle
}

/// `hay` begins with `prefix`.
pub open spec fn seq_starts_with(hay: Seq<char>, prefix: Seq<char>) -> bool {
    prefix.len() <= hay.len() && hay.subrange(0, prefix.len() as int) =~= prefix
}

/// `hay` ends with `suffix`.
pub open spec fn seq_ends_with(hay: Seq<char>, suffix: Seq<char>) -> bool {
    suffix.len() <= hay.len() && hay.subrange(
        hay.len() - suffix.len(),
        hay.len() as int,
    ) =~= suffix
}

/// Lexicographic order on character sequences; this is the order `str`
/// comparison uses, since UTF-8 byte order agrees with scalar-value order.
pub open spec fn seq_str_lt(a: Seq<char>, b: Seq<char>) -> bool
    decreases a.len(),
{
    if b.len() == 0 {
        false
    } else if a.len() == 0 {
        true
    } else if a[0] != b[0] {
        a[0] < b[0]
    } else {
        seq_str_lt(a.drop_first(), b.drop_first())
    }
}

/// Relies on str::contains: true when the needle occurs as a substring.
#[verifier::external_body]
pub fn str_contains(hay: &str, needle: &str) -> (r: bool)
    ensures
        r == seq_contains_sub(hay@, needle@),
{
    hay.contains(needle)
}

/// Relies on str::starts_with.
#[verifier::external_body]
pub fn str_starts_with(hay: &str, prefix: &str) -> (r: bool)
    ensures
        r == seq_starts_with(hay@, prefix@),
{
    hay.starts_with(prefix)
}

/// Relies on str::ends_with.
#[verifier::external_body]
pub fn str_ends_with(hay: &str, suffix: &str) -> (r: bool)
    ensures
        r == seq_ends_with(hay@, suffix@),
{
    hay.ends_with(suffix)
}

/// Relies on str equality, which compares the character contents.
#[verifier::external_body]
pub fn str_eq(a: &str, b: &str) -> (r: bool)
    ensures
        r == (a@ == b@),
{
    a == b
}

/// Relies on str's `Ord`: lexicographic comparison by scalar value.
#[verifier::external_body]
pub fn str_lt(a: &str, b: &str) -> (r: bool)
    ensures
        r == seq_str_lt(a@, b@),
{
    a < b
}

/// Relies on char::to_string: the one-character string.
#[verifier::external_body]
pub fn char_to_string(c: char) -> (r: String)
    ensures
        r@ =~= seq![c],
{
    c.to_string()
}

fn digit_str(d: u128) -> (r: &'static str)
    requires
        d < 10,
    ensures
        r@ =~= seq![dig_char(d as int)],
{
    proof {
        reveal_strlit("0");
        reveal_strlit("1");
        reveal_strlit("2");
        reveal_strlit("3");
        reveal_strlit("4");
        reveal_strlit("5");
        reveal_strlit("6");
        reveal_strlit("7");
        reveal_strlit("8");
        reveal_strlit("9");
    }
    match d {
        0 => "0",
        1 => "1",
        2 => "2",
        3 => "3",
        4 => "4",
        5 => "5",
        6 => "6",
        7 => "7",
        8 => "8",
        _ => "9",
    }
}

/// Decimal rendering of an unsigned 128-bit integer.
pub fn u128_to_string(n: u128) -> (r: String)
    ensures
        r@ =~= udec(n as int),
    decreases n,
{
    if n < 10 {
        let d = digit_str(n);
        d.to_owned()
    } else {
        let high = u128_to_string(n / 10);
        let low = digit_str(n % 10);
        high.concat(low)
    }
}

/// Decimal rendering of a signed 128-bit integer.
pub fn i128_to_string(n: i128) -> (r: String)
    ensures
        r@ =~= idec(n as int),
{
    if n < 0 {
        proof {
            reveal_strlit("-");
        }
        let mag: u128 = if n == i128::MIN {
            170141183460469231731687303715884105728u128
        } else {
            (-n) as u128
        };
        let s = "-".to_owned();
        let digits = u128_to_string(mag);
        s.concat(digits.as_str())
    } else {
        u128_to_string(n as u128)
    }
}

pub fn usize_to_string(n: usize) -> (r: String)
    ensures
        r@ =~= udec(n as int),
{
    u128_to_string(n as u128)
}

} // verus!

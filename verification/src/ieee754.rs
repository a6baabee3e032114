//! Comparison semantics for 32- and 64-bit IEEE-754 values carried as raw bit
//! patterns, together with a saturating fixed-point model (18 decimal places
//! in an `i128`) used by the JSON-path numeric comparator.
//!
//! The library never touches machine floating point: a float-valued record
//! field enters as the bit pattern of its encoding, and everything below is
//! integer arithmetic on those bits.
use vstd::prelude::*;
use crate::text::udec;

verus! {

/// The bit pattern encodes a 64-bit NaN.
pub open spec fn bits64_is_nan(b: u64) -> bool {
    (b >> 52) & 0x7ff == 0x7ff && b & 0xf_ffff_ffff_ffff != 0
}

/// Signed-magnitude ordering key of a 64-bit pattern: negative values map
/// below positive ones, and both zeros map to 0, exactly as IEEE-754
/// comparison orders the encoded values.
pub open spec fn bits64_key(b: u64) -> int {
    if b >> 63 == 1 {
        -((b & 0x7fff_ffff_ffff_ffff) as int)
    } else {
        (b & 0x7fff_ffff_ffff_ffff) as int
    }
}

/// IEEE-754 equality on 64-bit patterns: false on NaN, true on both zeros.
pub open spec fn bits64_eq(a: u64, b: u64) -> bool {
    !bits64_is_nan(a) && !bits64_is_nan(b) && bits64_key(a) == bits64_key(b)
}

/// IEEE-754 less-than on 64-bit patterns: false whenever either is NaN.
pub open spec fn bits64_lt(a: u64, b: u64) -> bool {
    !bits64_is_nan(a) && !bits64_is_nan(b) && bits64_key(a) < bits64_key(b)
}

pub fn f64_bits_is_nan(b: u64) -> (r: bool)
    ensures
        r == bits64_is_nan(b),
{
    (b >> 52) & 0x7ff == 0x7ff && b & 0xf_ffff_ffff_ffff != 0
}

fn f64_key(b: u64) -> (k: i128)
    ensures
        k as int == bits64_key(b),
{
    let mag = b & 0x7fff_ffff_ffff_ffff;
    if b >> 63 == 1 {
        -(mag as i128)
    } else {
        mag as i128
    }
}

pub fn f64_bits_eq(a: u64, b: u64) -> (r: bool)
    ensures
        r == bits64_eq(a, b),
{
    if f64_bits_is_nan(a) || f64_bits_is_nan(b) {
        false
    } else {
        f64_key(a) == f64_key(b)
    }
}

pub fn f64_bits_lt(a: u64, b: u64) -> (r: bool)
    ensures
        r == bits64_lt(a, b),
{
    if f64_bits_is_nan(a) || f64_bits_is_nan(b) {
        false
    } else {
        f64_key(a) < f64_key(b)
    }
}

/// The 32-bit analogues of the same definitions.
pub open spec fn bits32_is_nan(b: u32) -> bool {
    (b >> 23) & 0xff == 0xff && b & 0x7f_ffff != 0
}

pub open spec fn bits32_key(b: u32) -> int {
    if b >> 31 == 1 {
        -((b & 0x7fff_ffff) as int)
    } else {
        (b & 0x7fff_ffff) as int
    }
}

pub open spec fn bits32_eq(a: u32, b: u32) -> bool {
    !bits32_is_nan(a) && !bits32_is_nan(b) && bits32_key(a) == bits32_key(b)
}

pub open spec fn bits32_lt(a: u32, b: u32) -> bool {
    !bits32_is_nan(a) && !bits32_is_nan(b) && bits32_key(a) < bits32_key(b)
}

pub fn f32_bits_is_nan(b: u32) -> (r: bool)
    ensures
        r == bits32_is_nan(b),
{
    (b >> 23) & 0xff == 0xff && b & 0x7f_ffff != 0
}

fn f32_key(b: u32) -> (k: i64)
    ensures
        k as int == bits32_key(b),
{
    let mag = b & 0x7fff_ffff;
    if b >> 31 == 1 {
        -(mag as i64)
    } else {
        mag as i64
    }
}

pub fn f32_bits_eq(a: u32, b: u32) -> (r: bool)
    ensures
        r == bits32_eq(a, b),
{
    if f32_bits_is_nan(a) || f32_bits_is_nan(b) {
        false
    } else {
        f32_key(a) == f32_key(b)
    }
}

pub fn f32_bits_lt(a: u32, b: u32) -> (r: bool)
    ensures
        r == bits32_lt(a, b),
{
    if f32_bits_is_nan(a) || f32_bits_is_nan(b) {
        false
    } else {
        f32_key(a) < f32_key(b)
    }
}

// ---------------------------------------------------------------------------
// Fixed-point model for JSON-path numeric comparison: a number is held as
// value * 10^18 in an i128, saturated at +/- FP_SAT. All numeric kinds widen
// into this one domain, so comparison is width- and signedness-agnostic.
// ---------------------------------------------------------------------------

/// One unit, scaled: 10^18.
pub const FP_ONE: i128 = 1_000_000_000_000_000_000;

/// Saturation bound of the fixed-point domain (8 * 10^19, scaled): any value
/// of larger magnitude, infinities included, is clamped here.
pub const FP_SAT: i128 = 80_000_000_000_000_000_000_000_000_000_000_000_000;

/// Largest integer magnitude that widens exactly: 8 * 10^19.
pub const FP_INT_MAX: i128 = 80_000_000_000_000_000_000;

/// Absolute comparison tolerance: 2^-52, scaled by 10^18 and rounded down.
pub const FP_EPS: i128 = 222;

/// The fixed-point widening of a mathematical integer, saturating. Every
/// integer kind of field goes through this one function, so two fields of
/// different integer kinds but equal value widen identically.
pub open spec fn fp_of_int(v: int) -> i128 {
    if v > FP_INT_MAX {
        FP_SAT
    } else if v < -(FP_INT_MAX as int) {
        (-FP_SAT) as i128
    } else {
        (v * FP_ONE) as i128
    }
}

pub fn fp_from_i128(v: i128) -> (r: i128)
    ensures
        r == fp_of_int(v as int),
{
    if v > FP_INT_MAX {
        FP_SAT
    } else if v < -FP_INT_MAX {
        -FP_SAT
    } else {
        v * FP_ONE
    }
}

pub fn fp_from_u128(v: u128) -> (r: i128)
    ensures
        r == fp_of_int(v as int),
{
    if v > FP_INT_MAX as u128 {
        FP_SAT
    } else {
        (v as i128) * FP_ONE
    }
}

/// The fixed-point reading of a 64-bit pattern: None on NaN, saturated on
/// infinities and out-of-range magnitudes, truncated below 10^-18. The
/// mantissa is scaled by 10^18 first and then shifted by the unbiased
/// exponent; a shift past the top is saturation, one past the bottom is zero.
pub open spec fn fp_of_bits64(b: u64) -> Option<i128> {
    if bits64_is_nan(b) {
        None
    } else {
        let neg = b >> 63 == 1;
        let ex = (b >> 52) & 0x7ff;
        let frac = b & 0xf_ffff_ffff_ffff;
        let mag: u128 = if ex == 0x7ff {
            (FP_SAT as u128 + 1) as u128
        } else {
            let m: u128 = if ex == 0 {
                frac as u128
            } else {
                (frac | 0x10_0000_0000_0000) as u128
            };
            let t: u128 = (m * (FP_ONE as u128)) as u128;
            if ex >= 1090 {
                (FP_SAT as u128 + 1) as u128
            } else if ex >= 1075 {
                t << (((ex - 1075) as u128))
            } else if ex <= 947 {
                0u128
            } else {
                t >> (((1075 - ex) as u128))
            }
        };
        let capped: i128 = if mag > FP_SAT as u128 {
            FP_SAT
        } else {
            mag as i128
        };
        Some(if neg { (-capped) as i128 } else { capped })
    }
}

pub fn fp_from_f64_bits(b: u64) -> (r: Option<i128>)
    ensures
        r == fp_of_bits64(b),
{
    if f64_bits_is_nan(b) {
        None
    } else {
        let neg = b >> 63 == 1;
        let ex = (b >> 52) & 0x7ff;
        let frac = b & 0xf_ffff_ffff_ffff;
        assert(ex <= 0x7ff) by (bit_vector)
            requires
                ex == (b >> 52) & 0x7ff,
        ;
        let mag: u128 = if ex == 0x7ff {
            (FP_SAT as u128) + 1
        } else {
            let m: u128 = if ex == 0 {
                frac as u128
            } else {
                (frac | 0x10_0000_0000_0000) as u128
            };
            assert(frac <= 0xf_ffff_ffff_ffff && (frac | 0x10_0000_0000_0000)
                <= 0x1f_ffff_ffff_ffff) by (bit_vector)
                requires
                    frac == b & 0xf_ffff_ffff_ffff,
            ;
            assert(m * 1_000_000_000_000_000_000u128 <= 0x1f_ffff_ffff_ffffu128
                * 1_000_000_000_000_000_000) by (nonlinear_arith)
                requires
                    m <= 0x1f_ffff_ffff_ffffu128,
            ;
            let t: u128 = m * (FP_ONE as u128);
            if ex >= 1090 {
                (FP_SAT as u128) + 1
            } else if ex >= 1075 {
                t << ((ex - 1075) as u128)
            } else if ex <= 947 {
                0u128
            } else {
                t >> ((1075 - ex) as u128)
            }
        };
        let capped: i128 = if mag > FP_SAT as u128 {
            FP_SAT
        } else {
            mag as i128
        };
        Some(if neg { -capped } else { capped })
    }
}

/// The fixed-point reading of a 32-bit pattern, by the same scheme: the
/// mantissa is scaled by 10^18 and shifted by the unbiased exponent.
pub open spec fn fp_of_bits32(b: u32) -> Option<i128> {
    if bits32_is_nan(b) {
        None
    } else {
        let neg = b >> 31 == 1;
        let ex = (b >> 23) & 0xff;
        let frac = b & 0x7f_ffff;
        let mag: u128 = if ex == 0xff {
            (FP_SAT as u128 + 1) as u128
        } else {
            let m: u128 = if ex == 0 {
                frac as u128
            } else {
                (frac | 0x80_0000) as u128
            };
            let t: u128 = (m * (FP_ONE as u128)) as u128;
            if ex >= 165 {
                (FP_SAT as u128 + 1) as u128
            } else if ex >= 150 {
                t << (((ex - 150) as u128))
            } else if ex <= 22 {
                0u128
            } else {
                t >> (((150 - ex) as u128))
            }
        };
        let capped: i128 = if mag > FP_SAT as u128 {
            FP_SAT
        } else {
            mag as i128
        };
        Some(if neg { (-capped) as i128 } else { capped })
    }
}

pub fn fp_from_f32_bits(b: u32) -> (r: Option<i128>)
    ensures
        r == fp_of_bits32(b),
{
    if f32_bits_is_nan(b) {
        None
    } else {
        let neg = b >> 31 == 1;
        let ex = (b >> 23) & 0xff;
        let frac = b & 0x7f_ffff;
        assert(ex <= 0xff && frac <= 0x7f_ffff && (frac | 0x80_0000) <= 0xff_ffff)
            by (bit_vector)
            requires
                ex == (b >> 23) & 0xff,
                frac == b & 0x7f_ffff,
        ;
        let mag: u128 = if ex == 0xff {
            (FP_SAT as u128) + 1
        } else {
            let m: u128 = if ex == 0 {
                frac as u128
            } else {
                (frac | 0x80_0000) as u128
            };
            assert(m * 1_000_000_000_000_000_000u128 <= 0xff_ffffu128
                * 1_000_000_000_000_000_000) by (nonlinear_arith)
                requires
                    m <= 0xff_ffffu128,
            ;
            let t: u128 = m * (FP_ONE as u128);
            if ex >= 165 {
                (FP_SAT as u128) + 1
            } else if ex >= 150 {
                t << ((ex - 150) as u128)
            } else if ex <= 22 {
                0u128
            } else {
                t >> ((150 - ex) as u128)
            }
        };
        let capped: i128 = if mag > FP_SAT as u128 {
            FP_SAT
        } else {
            mag as i128
        };
        Some(if neg { -capped } else { capped })
    }
}

/// Absolute value within the saturated domain.
pub open spec fn fp_abs(v: i128) -> i128
    recommends
        -FP_SAT <= v <= FP_SAT,
{
    if v < 0 {
        (-v) as i128
    } else {
        v
    }
}

/// Fixed-point equality with tolerance: equal when the difference is within
/// the scaled 2^-52 bound, absolutely or relative to the larger magnitude.
/// This is the deliberate stand-in for comparing at the granularity of
/// 64-bit binary floating point: the absolute branch keeps the documented
/// epsilon for values near one and below, and the relative branch grants
/// the one-unit-in-the-last-place slack without which a decimal rule
/// literal could never equal the binary field value it denotes. At scales
/// far above one this admits differences up to the magnitude shifted right
/// by 52 bits, where a machine-double comparison with an absolute epsilon
/// would only admit exact equality.
pub open spec fn fp_eq(a: i128, b: i128) -> bool
    recommends
        -FP_SAT <= a <= FP_SAT,
        -FP_SAT <= b <= FP_SAT,
{
    let d = if a >= b { (a - b) as i128 } else { (b - a) as i128 };
    let m = if fp_abs(a) >= fp_abs(b) { fp_abs(a) } else { fp_abs(b) };
    d <= FP_EPS || d <= m / 0x10_0000_0000_0000
}

pub fn fp_exec_eq(a: i128, b: i128) -> (r: bool)
    requires
        -FP_SAT <= a <= FP_SAT,
        -FP_SAT <= b <= FP_SAT,
    ensures
        r == fp_eq(a, b),
{
    let d: i128 = if a >= b {
        a - b
    } else {
        b - a
    };
    let aa: i128 = if a < 0 {
        -a
    } else {
        a
    };
    let ab: i128 = if b < 0 {
        -b
    } else {
        b
    };
    let m: i128 = if aa >= ab {
        aa
    } else {
        ab
    };
    d <= FP_EPS || d <= m / 0x10_0000_0000_0000
}

// ---------------------------------------------------------------------------
// Rendering of fixed-point values as decimal strings.
// ---------------------------------------------------------------------------

/// Powers of ten.
pub open spec fn pow10(e: int) -> int
    decreases e,
{
    if e <= 0 {
        1
    } else {
        10 * pow10(e - 1)
    }
}

/// Drop factors of ten: the fraction with trailing zero digits removed.
pub open spec fn strip_val(fr: int) -> int
    decreases fr,
{
    if fr > 0 && fr % 10 == 0 {
        strip_val(fr / 10)
    } else {
        fr
    }
}

/// How many digit places remain after dropping trailing zero digits.
pub open spec fn strip_places(fr: int, places: int) -> int
    decreases fr,
{
    if fr > 0 && fr % 10 == 0 {
        strip_places(fr / 10, places - 1)
    } else {
        places
    }
}

/// A run of `k` zero characters.
pub open spec fn zeros(k: int) -> Seq<char>
    decreases k,
{
    if k <= 0 {
        Seq::empty()
    } else {
        seq!['0'] + zeros(k - 1)
    }
}

/// The fractional digits of a fixed-point value: zero-padded on the left to
/// its remaining places, trailing zero digits removed.
pub open spec fn fp_frac_digits(fr: int) -> Seq<char> {
    let v = strip_val(fr);
    let p = strip_places(fr, 18);
    zeros(p - udec(v).len()) + udec(v)
}

/// The display form of a fixed-point value: saturated magnitudes render as
/// infinities, whole values without a point, others with their fractional
/// digits after a point.
pub open spec fn fp_display(v: i128) -> Seq<char> {
    if v == FP_SAT {
        "inf"@
    } else if v == -FP_SAT {
        "-inf"@
    } else {
        let neg = v < 0;
        let mag = fp_abs(v);
        let ip = mag / FP_ONE;
        let fr = mag % FP_ONE;
        let sign: Seq<char> = if neg {
            "-"@
        } else {
            Seq::empty()
        };
        if fr == 0 {
            sign + udec(ip as int)
        } else {
            sign + udec(ip as int) + "."@ + fp_frac_digits(fr as int)
        }
    }
}

fn zeros_string(k: u64) -> (r: String)
    requires
        k <= 18,
    ensures
        r@ == zeros(k as int),
{
    let mut acc = String::new();
    let mut i: u64 = 0;
    proof {
        reveal_strlit("0");
        assert("0"@ =~= seq!['0']);
    }
    while i < k
        invariant
            i <= k,
            acc@ == zeros(i as int),
            "0"@ =~= seq!['0'],
        decreases k - i,
    {
        acc.append("0");
        proof {
            lemma_zeros_snoc(i as int);
        }
        i = i + 1;
    }
    acc
}

proof fn lemma_zeros_snoc(k: int)
    requires
        k >= 0,
    ensures
        zeros(k) + seq!['0'] =~= zeros(k + 1),
    decreases k,
{
    if k > 0 {
        lemma_zeros_snoc(k - 1);
        assert(zeros(k) + seq!['0'] =~= seq!['0'] + (zeros(k - 1) + seq!['0']));
    }
}

/// After stripping, at least as many places remain as the stripped value has
/// digits: the fraction stays below ten to its places throughout.
proof fn lemma_strip_places_ge_len(fr: int, places: int)
    requires
        0 < fr,
        fr < pow10(places),
        0 <= places,
    ensures
        strip_places(fr, places) >= udec(strip_val(fr)).len(),
        strip_places(fr, places) <= places,
        strip_val(fr) > 0,
        strip_val(fr) < pow10(strip_places(fr, places)),
    decreases fr,
{
    if fr % 10 == 0 {
        assert(pow10(0) == 1);
        assert(places > 0);
        assert(fr / 10 < pow10(places - 1)) by (nonlinear_arith)
            requires
                fr < pow10(places),
                pow10(places) == 10 * pow10(places - 1),
                fr % 10 == 0,
                fr > 0,
        ;
        lemma_strip_places_ge_len(fr / 10, places - 1);
    } else {
        lemma_udec_len_below_pow10(fr, places);
    }
}

proof fn lemma_udec_len_below_pow10(n: int, places: int)
    requires
        0 < n < pow10(places),
        0 <= places,
    ensures
        udec(n).len() <= places,
    decreases n,
{
    assert(pow10(0) == 1);
    assert(places >= 1);
    if n < 10 {
    } else {
        assert(n / 10 < pow10(places - 1)) by (nonlinear_arith)
            requires
                n < pow10(places),
                pow10(places) == 10 * pow10(places - 1),
                n >= 10,
        ;
        lemma_udec_len_below_pow10(n / 10, places - 1);
    }
}

/// Render the fraction `fr` (0 < fr < 10^18) as its decimal digit string.
fn frac_digit_string(fr: u128) -> (r: String)
    requires
        0 < fr < 1_000_000_000_000_000_000,
    ensures
        r@ == fp_frac_digits(fr as int),
{
    proof {
        reveal_with_fuel(pow10, 19);
        assert(pow10(18) == 1_000_000_000_000_000_000);
    }
    let mut x: u128 = fr;
    let mut places: u64 = 18;
    while x % 10 == 0
        invariant
            0 < x <= fr,
            1 <= places <= 18,
            x < pow10(places as int),
            strip_val(fr as int) == strip_val(x as int),
            strip_places(fr as int, 18) == strip_places(x as int, places as int),
        decreases x,
    {
        proof {
            assert(pow10(0) == 1);
            assert(pow10(1) == 10);
            if places == 1 {
                assert(x < 10);
                assert(x % 10 == x);
                assert(false);
            }
            assert(x / 10 < pow10(places as int - 1)) by (nonlinear_arith)
                requires
                    x < pow10(places as int),
                    pow10(places as int) == 10 * pow10(places as int - 1),
                    x % 10 == 0,
                    x > 0,
            ;
        }
        x = x / 10;
        places = places - 1;
    }
    let digits = crate::text::u128_to_string(x);
    let dlen = digits.as_str().unicode_len();
    proof {
        lemma_strip_places_ge_len(fr as int, 18);
    }
    let pad = zeros_string(places - (dlen as u64));
    pad.concat(digits.as_str())
}

/// The display string of a fixed-point value.
pub fn fp_to_string(v: i128) -> (r: String)
    requires
        -FP_SAT <= v <= FP_SAT,
    ensures
        r@ == fp_display(v),
{
    proof {
        reveal_strlit("inf");
        reveal_strlit("-inf");
        reveal_strlit("-");
        reveal_strlit(".");
        reveal_strlit("");
    }
    if v == FP_SAT {
        "inf".to_owned()
    } else if v == -FP_SAT {
        "-inf".to_owned()
    } else {
        let neg = v < 0;
        let mag: i128 = if v < 0 {
            -v
        } else {
            v
        };
        let ip: i128 = mag / FP_ONE;
        let fr: i128 = mag % FP_ONE;
        let sign: String = if neg {
            "-".to_owned()
        } else {
            "".to_owned()
        };
        let ips = crate::text::u128_to_string(ip as u128);
        if fr == 0 {
            let r = sign.concat(ips.as_str());
            proof {
                assert(r@ =~= fp_display(v));
            }
            r
        } else {
            let frs = frac_digit_string(fr as u128);
            let r = sign.concat(ips.as_str()).concat(".").concat(frs.as_str());
            proof {
                assert(r@ =~= fp_display(v));
            }
            r
        }
    }
}

} // verus!

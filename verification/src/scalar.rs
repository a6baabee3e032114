//! The closed set of scalar kinds a condition can compare: signed and
//! unsigned integers of every width, 32- and 64-bit IEEE-754 bit patterns,
//! booleans, characters and strings. A field value is carried as one of
//! these tagged values, and comparison dispatches on the concrete kind;
//! two values of different kinds never compare equal, by design.
use vstd::prelude::*;
use crate::ieee754::{
    bits32_is_nan, bits64_is_nan, fp_display, fp_from_f32_bits, fp_from_f64_bits, fp_of_bits32,
    fp_of_bits64, fp_of_int, fp_from_i128, fp_from_u128, fp_to_string, FP_SAT,
};
use crate::text::{idec, udec, char_to_string, i128_to_string, u128_to_string};

verus! {

/// A type-erased scalar, recovered at a concrete kind.
pub enum Scalar {
    I8(i8),
    I16(i16),
    I32(i32),
    I64(i64),
    I128(i128),
    Isize(isize),
    U8(u8),
    U16(u16),
    U32(u32),
    U64(u64),
    U128(u128),
    Usize(usize),
    F32Bits(u32),
    F64Bits(u64),
    Bool(bool),
    Char(char),
    Str(String),
}

impl Scalar {
    /// Both values carry the same concrete kind.
    pub open spec fn same_kind(self, other: Scalar) -> bool {
        match (self, other) {
            (Scalar::I8(_), Scalar::I8(_)) => true,
            (Scalar::I16(_), Scalar::I16(_)) => true,
            (Scalar::I32(_), Scalar::I32(_)) => true,
            (Scalar::I64(_), Scalar::I64(_)) => true,
            (Scalar::I128(_), Scalar::I128(_)) => true,
            (Scalar::Isize(_), Scalar::Isize(_)) => true,
            (Scalar::U8(_), Scalar::U8(_)) => true,
            (Scalar::U16(_), Scalar::U16(_)) => true,
            (Scalar::U32(_), Scalar::U32(_)) => true,
            (Scalar::U64(_), Scalar::U64(_)) => true,
            (Scalar::U128(_), Scalar::U128(_)) => true,
            (Scalar::Usize(_), Scalar::Usize(_)) => true,
            (Scalar::F32Bits(_), Scalar::F32Bits(_)) => true,
            (Scalar::F64Bits(_), Scalar::F64Bits(_)) => true,
            (Scalar::Bool(_), Scalar::Bool(_)) => true,
            (Scalar::Char(_), Scalar::Char(_)) => true,
            (Scalar::Str(_), Scalar::Str(_)) => true,
            _ => false,
        }
    }

    /// The mathematical value of an integer-kind scalar; None for the rest.
    pub open spec fn int_val(self) -> Option<int> {
        match self {
            Scalar::I8(x) => Some(x as int),
            Scalar::I16(x) => Some(x as int),
            Scalar::I32(x) => Some(x as int),
            Scalar::I64(x) => Some(x as int),
            Scalar::I128(x) => Some(x as int),
            Scalar::Isize(x) => Some(x as int),
            Scalar::U8(x) => Some(x as int),
            Scalar::U16(x) => Some(x as int),
            Scalar::U32(x) => Some(x as int),
            Scalar::U64(x) => Some(x as int),
            Scalar::U128(x) => Some(x as int),
            Scalar::Usize(x) => Some(x as int),
            _ => None,
        }
    }

    /// Deep value equality: kinds equal and contents equal, strings by view.
    pub open spec fn eq_val(self, other: Scalar) -> bool {
        match (self, other) {
            (Scalar::I8(x), Scalar::I8(y)) => x == y,
            (Scalar::I16(x), Scalar::I16(y)) => x == y,
            (Scalar::I32(x), Scalar::I32(y)) => x == y,
            (Scalar::I64(x), Scalar::I64(y)) => x == y,
            (Scalar::I128(x), Scalar::I128(y)) => x == y,
            (Scalar::Isize(x), Scalar::Isize(y)) => x == y,
            (Scalar::U8(x), Scalar::U8(y)) => x == y,
            (Scalar::U16(x), Scalar::U16(y)) => x == y,
            (Scalar::U32(x), Scalar::U32(y)) => x == y,
            (Scalar::U64(x), Scalar::U64(y)) => x == y,
            (Scalar::U128(x), Scalar::U128(y)) => x == y,
            (Scalar::Usize(x), Scalar::Usize(y)) => x == y,
            (Scalar::F32Bits(x), Scalar::F32Bits(y)) => x == y,
            (Scalar::F64Bits(x), Scalar::F64Bits(y)) => x == y,
            (Scalar::Bool(x), Scalar::Bool(y)) => x == y,
            (Scalar::Char(x), Scalar::Char(y)) => x == y,
            (Scalar::Str(x), Scalar::Str(y)) => x@ == y@,
            _ => false,
        }
    }

    /// The display text of a scalar: integers in decimal, booleans as their
    /// names, IEEE-754 patterns through the fixed-point rendering (NaN by
    /// name), strings as themselves.
    pub open spec fn display_view(self) -> Seq<char> {
        match self {
            Scalar::I8(x) => idec(x as int),
            Scalar::I16(x) => idec(x as int),
            Scalar::I32(x) => idec(x as int),
            Scalar::I64(x) => idec(x as int),
            Scalar::I128(x) => idec(x as int),
            Scalar::Isize(x) => idec(x as int),
            Scalar::U8(x) => udec(x as int),
            Scalar::U16(x) => udec(x as int),
            Scalar::U32(x) => udec(x as int),
            Scalar::U64(x) => udec(x as int),
            Scalar::U128(x) => udec(x as int),
            Scalar::Usize(x) => udec(x as int),
            Scalar::F32Bits(b) => match fp_of_bits32(b) {
                Some(fp) => fp_display(fp),
                None => "NaN"@,
            },
            Scalar::F64Bits(b) => match fp_of_bits64(b) {
                Some(fp) => fp_display(fp),
                None => "NaN"@,
            },
            Scalar::Bool(x) => if x {
                "true"@
            } else {
                "false"@
            },
            Scalar::Char(c) => seq![c],
            Scalar::Str(s) => s@,
        }
    }

    /// The fixed-point widening of a numeric-kind scalar; None for
    /// non-numeric kinds and NaN patterns.
    pub open spec fn fp_val(self) -> Option<i128> {
        match self {
            Scalar::F32Bits(b) => fp_of_bits32(b),
            Scalar::F64Bits(b) => fp_of_bits64(b),
            _ => match self.int_val() {
                Some(v) => Some(fp_of_int(v)),
                None => None,
            },
        }
    }

    /// Widen this scalar into the fixed-point domain.
    pub fn to_fp(&self) -> (r: Option<i128>)
        ensures
            r == self.fp_val(),
    {
        match self {
            Scalar::I8(x) => Some(fp_from_i128(*x as i128)),
            Scalar::I16(x) => Some(fp_from_i128(*x as i128)),
            Scalar::I32(x) => Some(fp_from_i128(*x as i128)),
            Scalar::I64(x) => Some(fp_from_i128(*x as i128)),
            Scalar::I128(x) => Some(fp_from_i128(*x)),
            Scalar::Isize(x) => Some(fp_from_i128(*x as i128)),
            Scalar::U8(x) => Some(fp_from_u128(*x as u128)),
            Scalar::U16(x) => Some(fp_from_u128(*x as u128)),
            Scalar::U32(x) => Some(fp_from_u128(*x as u128)),
            Scalar::U64(x) => Some(fp_from_u128(*x as u128)),
            Scalar::U128(x) => Some(fp_from_u128(*x)),
            Scalar::Usize(x) => Some(fp_from_u128(*x as u128)),
            Scalar::F32Bits(b) => fp_from_f32_bits(*b),
            Scalar::F64Bits(b) => fp_from_f64_bits(*b),
            Scalar::Bool(_) => None,
            Scalar::Char(_) => None,
            Scalar::Str(_) => None,
        }
    }

    /// The display text of this scalar.
    pub fn display(&self) -> (r: String)
        ensures
            r@ == self.display_view(),
    {
        proof {
            reveal_strlit("NaN");
        }
        match self {
            Scalar::I8(x) => i128_to_string(*x as i128),
            Scalar::I16(x) => i128_to_string(*x as i128),
            Scalar::I32(x) => i128_to_string(*x as i128),
            Scalar::I64(x) => i128_to_string(*x as i128),
            Scalar::I128(x) => i128_to_string(*x),
            Scalar::Isize(x) => i128_to_string(*x as i128),
            Scalar::U8(x) => u128_to_string(*x as u128),
            Scalar::U16(x) => u128_to_string(*x as u128),
            Scalar::U32(x) => u128_to_string(*x as u128),
            Scalar::U64(x) => u128_to_string(*x as u128),
            Scalar::U128(x) => u128_to_string(*x),
            Scalar::Usize(x) => u128_to_string(*x as u128),
            Scalar::F32Bits(b) => match fp_from_f32_bits(*b) {
                Some(fp) => {
                    proof {
                        lemma_fp_of_bits32_bounded(*b);
                    }
                    fp_to_string(fp)
                },
                None => "NaN".to_owned(),
            },
            Scalar::F64Bits(b) => match fp_from_f64_bits(*b) {
                Some(fp) => {
                    proof {
                        lemma_fp_of_bits64_bounded(*b);
                    }
                    fp_to_string(fp)
                },
                None => "NaN".to_owned(),
            },
            Scalar::Bool(x) => if *x {
                "true".to_owned()
            } else {
                "false".to_owned()
            },
            Scalar::Char(c) => char_to_string(*c),
            Scalar::Str(s) => s.clone(),
        }
    }

    /// Deep equality of two scalars.
    pub fn equals(&self, other: &Scalar) -> (r: bool)
        ensures
            r == self.eq_val(*other),
    {
        match (self, other) {
            (Scalar::I8(x), Scalar::I8(y)) => x == y,
            (Scalar::I16(x), Scalar::I16(y)) => x == y,
            (Scalar::I32(x), Scalar::I32(y)) => x == y,
            (Scalar::I64(x), Scalar::I64(y)) => x == y,
            (Scalar::I128(x), Scalar::I128(y)) => x == y,
            (Scalar::Isize(x), Scalar::Isize(y)) => x == y,
            (Scalar::U8(x), Scalar::U8(y)) => x == y,
            (Scalar::U16(x), Scalar::U16(y)) => x == y,
            (Scalar::U32(x), Scalar::U32(y)) => x == y,
            (Scalar::U64(x), Scalar::U64(y)) => x == y,
            (Scalar::U128(x), Scalar::U128(y)) => x == y,
            (Scalar::Usize(x), Scalar::Usize(y)) => x == y,
            (Scalar::F32Bits(x), Scalar::F32Bits(y)) => x == y,
            (Scalar::F64Bits(x), Scalar::F64Bits(y)) => x == y,
            (Scalar::Bool(x), Scalar::Bool(y)) => x == y,
            (Scalar::Char(x), Scalar::Char(y)) => x == y,
            (Scalar::Str(x), Scalar::Str(y)) => crate::text::str_eq(x.as_str(), y.as_str()),
            _ => false,
        }
    }

    /// A deep copy of this scalar, equal in value to the original.
    pub fn duplicate(&self) -> (r: Scalar)
        ensures
            r == *self,
    {
        match self {
            Scalar::I8(x) => Scalar::I8(*x),
            Scalar::I16(x) => Scalar::I16(*x),
            Scalar::I32(x) => Scalar::I32(*x),
            Scalar::I64(x) => Scalar::I64(*x),
            Scalar::I128(x) => Scalar::I128(*x),
            Scalar::Isize(x) => Scalar::Isize(*x),
            Scalar::U8(x) => Scalar::U8(*x),
            Scalar::U16(x) => Scalar::U16(*x),
            Scalar::U32(x) => Scalar::U32(*x),
            Scalar::U64(x) => Scalar::U64(*x),
            Scalar::U128(x) => Scalar::U128(*x),
            Scalar::Usize(x) => Scalar::Usize(*x),
            Scalar::F32Bits(b) => Scalar::F32Bits(*b),
            Scalar::F64Bits(b) => Scalar::F64Bits(*b),
            Scalar::Bool(x) => Scalar::Bool(*x),
            Scalar::Char(c) => Scalar::Char(*c),
            Scalar::Str(s) => Scalar::Str(s.clone()),
        }
    }
}

/// A non-NaN 64-bit pattern widens inside the saturated domain.
pub proof fn lemma_fp_of_bits64_bounded(b: u64)
    requires
        !bits64_is_nan(b),
    ensures
        fp_of_bits64(b) is Some,
        -FP_SAT <= fp_of_bits64(b).unwrap() <= FP_SAT,
{
}

/// A non-NaN 32-bit pattern widens inside the saturated domain.
pub proof fn lemma_fp_of_bits32_bounded(b: u32)
    requires
        !bits32_is_nan(b),
    ensures
        fp_of_bits32(b) is Some,
        -FP_SAT <= fp_of_bits32(b).unwrap() <= FP_SAT,
{
}

/// Every fixed-point widening of a scalar lies in the saturated domain.
pub proof fn lemma_fp_val_bounded(s: Scalar)
    ensures
        s.fp_val() is Some ==> -FP_SAT <= s.fp_val().unwrap() <= FP_SAT,
{
    match s {
        Scalar::F32Bits(b) => {
            if !bits32_is_nan(b) {
                lemma_fp_of_bits32_bounded(b);
            }
        },
        Scalar::F64Bits(b) => {
            if !bits64_is_nan(b) {
                lemma_fp_of_bits64_bounded(b);
            }
        },
        _ => {
            match s.int_val() {
                Some(v) => {
                    lemma_fp_of_int_bounded(v);
                },
                None => {},
            }
        },
    }
}

/// The integer widening stays in the saturated domain.
pub proof fn lemma_fp_of_int_bounded(v: int)
    ensures
        -FP_SAT <= fp_of_int(v) <= FP_SAT,
{
}

} // verus!

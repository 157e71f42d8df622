//! Scalar values of any supported type, for records whose shape is known
//! only when the program runs.

use vstd::prelude::*;
use crate::decimal::{int_repr, lemma_parse_int_range, lemma_parse_int_repr, parse_int};
use crate::error::{Error, ErrorView};
use crate::from_repr::{int_error, parse_bool, result_view, FromRepr};
use crate::into_repr::{bool_repr, IntoRepr};
use crate::to_repr::ToRepr;

verus! {

/// The integer types.
#[derive(Clone, Copy, Debug, PartialEq, Eq, Structural)]
pub enum IntType {
    I8,
    U8,
    I16,
    U16,
    I32,
    U32,
    I64,
    U64,
    I128,
    U128,
    Isize,
    Usize,
}

impl IntType {
    /// The smallest value of the type.
    pub open spec fn min(self) -> int {
        match self {
            IntType::I8 => i8::MIN as int,
            IntType::U8 => 0,
            IntType::I16 => i16::MIN as int,
            IntType::U16 => 0,
            IntType::I32 => i32::MIN as int,
            IntType::U32 => 0,
            IntType::I64 => i64::MIN as int,
            IntType::U64 => 0,
            IntType::I128 => i128::MIN as int,
            IntType::U128 => 0,
            IntType::Isize => isize::MIN as int,
            IntType::Usize => 0,
        }
    }

    /// The largest value of the type.
    pub open spec fn max(self) -> int {
        match self {
            IntType::I8 => i8::MAX as int,
            IntType::U8 => u8::MAX as int,
            IntType::I16 => i16::MAX as int,
            IntType::U16 => u16::MAX as int,
            IntType::I32 => i32::MAX as int,
            IntType::U32 => u32::MAX as int,
            IntType::I64 => i64::MAX as int,
            IntType::U64 => u64::MAX as int,
            IntType::I128 => i128::MAX as int,
            IntType::U128 => u128::MAX as int,
            IntType::Isize => isize::MAX as int,
            IntType::Usize => usize::MAX as int,
        }
    }
}

/// The scalar types: what a single text can be read as.
#[derive(Clone, Copy, Debug, PartialEq, Eq, Structural)]
pub enum ScalarType {
    Bool,
    Int(IntType),
    Str,
}

/// A scalar value together with its type.
#[derive(Debug, PartialEq, Eq)]
pub enum Scalar {
    Bool(bool),
    I8(i8),
    U8(u8),
    I16(i16),
    U16(u16),
    I32(i32),
    U32(u32),
    I64(i64),
    U64(u64),
    I128(i128),
    U128(u128),
    Isize(isize),
    Usize(usize),
    Str(String),
}

/// The mathematical content of a [`Scalar`]: a truth value, an integer of
/// some integer type, or a text.
pub enum ScalarView {
    Bool(bool),
    Int(IntType, int),
    Str(Seq<char>),
}

impl View for Scalar {
    type V = ScalarView;

    open spec fn view(&self) -> ScalarView {
        match self {
            Scalar::Bool(value) => ScalarView::Bool(*value),
            Scalar::I8(value) => ScalarView::Int(IntType::I8, *value as int),
            Scalar::U8(value) => ScalarView::Int(IntType::U8, *value as int),
            Scalar::I16(value) => ScalarView::Int(IntType::I16, *value as int),
            Scalar::U16(value) => ScalarView::Int(IntType::U16, *value as int),
            Scalar::I32(value) => ScalarView::Int(IntType::I32, *value as int),
            Scalar::U32(value) => ScalarView::Int(IntType::U32, *value as int),
            Scalar::I64(value) => ScalarView::Int(IntType::I64, *value as int),
            Scalar::U64(value) => ScalarView::Int(IntType::U64, *value as int),
            Scalar::I128(value) => ScalarView::Int(IntType::I128, *value as int),
            Scalar::U128(value) => ScalarView::Int(IntType::U128, *value as int),
            Scalar::Isize(value) => ScalarView::Int(IntType::Isize, *value as int),
            Scalar::Usize(value) => ScalarView::Int(IntType::Usize, *value as int),
            Scalar::Str(value) => ScalarView::Str(value@),
        }
    }
}

impl ScalarView {
    /// The type of the value.
    pub open spec fn scalar_type(self) -> ScalarType {
        match self {
            ScalarView::Bool(_) => ScalarType::Bool,
            ScalarView::Int(ty, _) => ScalarType::Int(ty),
            ScalarView::Str(_) => ScalarType::Str,
        }
    }

    /// Whether the value is one of its type: an integer within the type's
    /// range.
    pub open spec fn wf(self) -> bool {
        match self {
            ScalarView::Int(ty, value) => ty.min() <= value <= ty.max(),
            _ => true,
        }
    }

    /// The text of the value.
    pub open spec fn text(self) -> Seq<char> {
        match self {
            ScalarView::Bool(value) => bool_repr(value),
            ScalarView::Int(_, value) => int_repr(value),
            ScalarView::Str(value) => value,
        }
    }
}

impl ScalarType {
    /// What `string` stands for as a value of this type.
    pub open spec fn parsed(self, string: Seq<char>) -> Result<ScalarView, ErrorView> {
        match self {
            ScalarType::Bool => match parse_bool(string) {
                Ok(value) => Ok(ScalarView::Bool(value)),
                Err(error) => Err(error),
            },
            ScalarType::Int(ty) => match parse_int(string, ty.min(), ty.max()) {
                Ok(value) => Ok(ScalarView::Int(ty, value)),
                Err(kind) => Err(int_error(kind)),
            },
            ScalarType::Str => Ok(ScalarView::Str(string)),
        }
    }

    /// The value that a field of this type has before anything is read:
    /// `false`, zero, or the empty text.
    pub open spec fn zero(self) -> ScalarView {
        match self {
            ScalarType::Bool => ScalarView::Bool(false),
            ScalarType::Int(ty) => ScalarView::Int(ty, 0),
            ScalarType::Str => ScalarView::Str(Seq::empty()),
        }
    }

    /// Reads `string` as a value of this type.
    pub fn parse(&self, string: &str) -> (result: Result<Scalar, Error>)
        ensures
            result_view(result) == self.parsed(string@),
    {
        proof {
            if let ScalarType::Int(ty) = *self {
                lemma_parse_int_range(string@, ty.min(), ty.max());
            }
        }
        match self {
            ScalarType::Bool => match bool::from_repr(string) {
                Ok(value) => Ok(Scalar::Bool(value)),
                Err(error) => Err(error),
            },
            ScalarType::Int(ty) => match ty {
                IntType::I8 => match i8::from_repr(string) {
                    Ok(value) => Ok(Scalar::I8(value)),
                    Err(error) => Err(error),
                },
                IntType::U8 => match u8::from_repr(string) {
                    Ok(value) => Ok(Scalar::U8(value)),
                    Err(error) => Err(error),
                },
                IntType::I16 => match i16::from_repr(string) {
                    Ok(value) => Ok(Scalar::I16(value)),
                    Err(error) => Err(error),
                },
                IntType::U16 => match u16::from_repr(string) {
                    Ok(value) => Ok(Scalar::U16(value)),
                    Err(error) => Err(error),
                },
                IntType::I32 => match i32::from_repr(string) {
                    Ok(value) => Ok(Scalar::I32(value)),
                    Err(error) => Err(error),
                },
                IntType::U32 => match u32::from_repr(string) {
                    Ok(value) => Ok(Scalar::U32(value)),
                    Err(error) => Err(error),
                },
                IntType::I64 => match i64::from_repr(string) {
                    Ok(value) => Ok(Scalar::I64(value)),
                    Err(error) => Err(error),
                },
                IntType::U64 => match u64::from_repr(string) {
                    Ok(value) => Ok(Scalar::U64(value)),
                    Err(error) => Err(error),
                },
                IntType::I128 => match i128::from_repr(string) {
                    Ok(value) => Ok(Scalar::I128(value)),
                    Err(error) => Err(error),
                },
                IntType::U128 => match u128::from_repr(string) {
                    Ok(value) => Ok(Scalar::U128(value)),
                    Err(error) => Err(error),
                },
                IntType::Isize => match isize::from_repr(string) {
                    Ok(value) => Ok(Scalar::Isize(value)),
                    Err(error) => Err(error),
                },
                IntType::Usize => match usize::from_repr(string) {
                    Ok(value) => Ok(Scalar::Usize(value)),
                    Err(error) => Err(error),
                },
            },
            ScalarType::Str => Ok(Scalar::Str(String::from_str(string))),
        }
    }

    /// The default value of this type.
    pub fn default_value(&self) -> (value: Scalar)
        ensures
            value@ == self.zero(),
    {
        match self {
            ScalarType::Bool => Scalar::Bool(false),
            ScalarType::Int(ty) => match ty {
                IntType::I8 => Scalar::I8(0),
                IntType::U8 => Scalar::U8(0),
                IntType::I16 => Scalar::I16(0),
                IntType::U16 => Scalar::U16(0),
                IntType::I32 => Scalar::I32(0),
                IntType::U32 => Scalar::U32(0),
                IntType::I64 => Scalar::I64(0),
                IntType::U64 => Scalar::U64(0),
                IntType::I128 => Scalar::I128(0),
                IntType::U128 => Scalar::U128(0),
                IntType::Isize => Scalar::Isize(0),
                IntType::Usize => Scalar::Usize(0),
            },
            ScalarType::Str => Scalar::Str(String::new()),
        }
    }
}

impl Scalar {
    /// The type of the value.
    pub fn scalar_type(&self) -> (ty: ScalarType)
        ensures
            ty == self@.scalar_type(),
    {
        match self {
            Scalar::Bool(_) => ScalarType::Bool,
            Scalar::I8(_) => ScalarType::Int(IntType::I8),
            Scalar::U8(_) => ScalarType::Int(IntType::U8),
            Scalar::I16(_) => ScalarType::Int(IntType::I16),
            Scalar::U16(_) => ScalarType::Int(IntType::U16),
            Scalar::I32(_) => ScalarType::Int(IntType::I32),
            Scalar::U32(_) => ScalarType::Int(IntType::U32),
            Scalar::I64(_) => ScalarType::Int(IntType::I64),
            Scalar::U64(_) => ScalarType::Int(IntType::U64),
            Scalar::I128(_) => ScalarType::Int(IntType::I128),
            Scalar::U128(_) => ScalarType::Int(IntType::U128),
            Scalar::Isize(_) => ScalarType::Int(IntType::Isize),
            Scalar::Usize(_) => ScalarType::Int(IntType::Usize),
            Scalar::Str(_) => ScalarType::Str,
        }
    }

    /// Every scalar value is one of its type.
    pub proof fn lemma_wf(&self)
        ensures
            self@.wf(),
    {
    }
}

impl Clone for Scalar {
    fn clone(&self) -> (copy: Scalar)
        ensures
            copy@ == self@,
    {
        match self {
            Scalar::Bool(value) => Scalar::Bool(*value),
            Scalar::I8(value) => Scalar::I8(*value),
            Scalar::U8(value) => Scalar::U8(*value),
            Scalar::I16(value) => Scalar::I16(*value),
            Scalar::U16(value) => Scalar::U16(*value),
            Scalar::I32(value) => Scalar::I32(*value),
            Scalar::U32(value) => Scalar::U32(*value),
            Scalar::I64(value) => Scalar::I64(*value),
            Scalar::U64(value) => Scalar::U64(*value),
            Scalar::I128(value) => Scalar::I128(*value),
            Scalar::U128(value) => Scalar::U128(*value),
            Scalar::Isize(value) => Scalar::Isize(*value),
            Scalar::Usize(value) => Scalar::Usize(*value),
            Scalar::Str(value) => Scalar::Str(value.clone()),
        }
    }
}

impl ToRepr for Scalar {
    open spec fn repr(&self) -> Seq<char> {
        self@.text()
    }

    fn to_repr(&self) -> (repr: String) {
        match self {
            Scalar::Bool(value) => value.into_repr(),
            Scalar::I8(value) => value.to_repr(),
            Scalar::U8(value) => value.to_repr(),
            Scalar::I16(value) => value.to_repr(),
            Scalar::U16(value) => value.to_repr(),
            Scalar::I32(value) => value.to_repr(),
            Scalar::U32(value) => value.to_repr(),
            Scalar::I64(value) => value.to_repr(),
            Scalar::U64(value) => value.to_repr(),
            Scalar::I128(value) => value.to_repr(),
            Scalar::U128(value) => value.to_repr(),
            Scalar::Isize(value) => value.to_repr(),
            Scalar::Usize(value) => value.to_repr(),
            Scalar::Str(value) => value.to_repr(),
        }
    }
}

/// The text of a scalar reads back, as the scalar's type, as the scalar:
/// for every value `v` that is one of its type,
/// `v.scalar_type().parsed(v.text())` is `Ok(v)`.
pub proof fn lemma_scalar_round_trip(value: ScalarView)
    requires
        value.wf(),
    ensures
        value.scalar_type().parsed(value.text()) == Ok::<ScalarView, ErrorView>(value),
{
    match value {
        ScalarView::Bool(flag) => {
            assert(seq!['t', 'r', 'u', 'e'] != seq!['f', 'a', 'l', 's', 'e']) by {
                assert(seq!['t', 'r', 'u', 'e'].len() != seq!['f', 'a', 'l', 's', 'e'].len());
            }
        },
        ScalarView::Int(ty, number) => {
            lemma_parse_int_repr(number, ty.min(), ty.max());
        },
        ScalarView::Str(_) => {},
    }
}

} // verus!

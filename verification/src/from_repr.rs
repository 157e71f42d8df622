//! Reading a scalar value from its text.

use vstd::prelude::*;
use crate::decimal::{parse_int, parse_signed, parse_unsigned};
use crate::error::{Error, ErrorView, IntErrorKind};

verus! {

/// The mathematical content of what a conversion returns.
pub open spec fn result_view<T: View>(result: Result<T, Error>) -> Result<T::V, ErrorView> {
    match result {
        Ok(value) => Ok(value@),
        Err(error) => Err(error@),
    }
}

/// Converts a string representation back to the typed value.
/// The opposite of [`crate::into_repr::IntoRepr`].
pub trait FromRepr: Sized + View {
    /// What `string` stands for: the value, or why it is no text of the type.
    spec fn parse(string: Seq<char>) -> Result<Self::V, ErrorView>;

    /// Converts a scalar value from its textual representation.
    fn from_repr(string: &str) -> (result: Result<Self, Error>)
        ensures
            result_view(result) == Self::parse(string@),
    ;
}

/// What a text stands for as a boolean: `true`, `false`, or nothing.
pub open spec fn parse_bool(string: Seq<char>) -> Result<bool, ErrorView> {
    if string == seq!['t', 'r', 'u', 'e'] {
        Ok(true)
    } else if string == seq!['f', 'a', 'l', 's', 'e'] {
        Ok(false)
    } else {
        Err(ErrorView::ParseBoolError)
    }
}

/// The failure of an integer conversion as an [`Error`].
pub open spec fn int_error(kind: IntErrorKind) -> ErrorView {
    ErrorView::ParseIntError(kind)
}

impl FromRepr for bool {
    open spec fn parse(string: Seq<char>) -> Result<bool, ErrorView> {
        parse_bool(string)
    }

    fn from_repr(string: &str) -> (result: Result<bool, Error>) {
        proof {
            reveal_strlit("true");
            reveal_strlit("false");
            assert("true"@ =~= seq!['t', 'r', 'u', 'e']);
            assert("false"@ =~= seq!['f', 'a', 'l', 's', 'e']);
        }
        if crate::text::same(string, "true") {
            Ok(true)
        } else if crate::text::same(string, "false") {
            Ok(false)
        } else {
            Err(Error::ParseBoolError)
        }
    }
}

impl FromRepr for i8 {
    open spec fn parse(string: Seq<char>) -> Result<i8, ErrorView> {
        match parse_int(string, i8::MIN as int, i8::MAX as int) {
            Ok(value) => Ok(value as i8),
            Err(kind) => Err(int_error(kind)),
        }
    }

    fn from_repr(string: &str) -> (result: Result<i8, Error>) {
        match parse_signed(string, i8::MIN as i128, i8::MAX as i128) {
            Ok(value) => Ok(value as i8),
            Err(kind) => Err(Error::ParseIntError(kind)),
        }
    }
}

impl FromRepr for u8 {
    open spec fn parse(string: Seq<char>) -> Result<u8, ErrorView> {
        match parse_int(string, 0, u8::MAX as int) {
            Ok(value) => Ok(value as u8),
            Err(kind) => Err(int_error(kind)),
        }
    }

    fn from_repr(string: &str) -> (result: Result<u8, Error>) {
        match parse_unsigned(string, u8::MAX as u128) {
            Ok(value) => Ok(value as u8),
            Err(kind) => Err(Error::ParseIntError(kind)),
        }
    }
}

impl FromRepr for i16 {
    open spec fn parse(string: Seq<char>) -> Result<i16, ErrorView> {
        match parse_int(string, i16::MIN as int, i16::MAX as int) {
            Ok(value) => Ok(value as i16),
            Err(kind) => Err(int_error(kind)),
        }
    }

    fn from_repr(string: &str) -> (result: Result<i16, Error>) {
        match parse_signed(string, i16::MIN as i128, i16::MAX as i128) {
            Ok(value) => Ok(value as i16),
            Err(kind) => Err(Error::ParseIntError(kind)),
        }
    }
}

impl FromRepr for u16 {
    open spec fn parse(string: Seq<char>) -> Result<u16, ErrorView> {
        match parse_int(string, 0, u16::MAX as int) {
            Ok(value) => Ok(value as u16),
            Err(kind) => Err(int_error(kind)),
        }
    }

    fn from_repr(string: &str) -> (result: Result<u16, Error>) {
        match parse_unsigned(string, u16::MAX as u128) {
            Ok(value) => Ok(value as u16),
            Err(kind) => Err(Error::ParseIntError(kind)),
        }
    }
}

impl FromRepr for i32 {
    open spec fn parse(string: Seq<char>) -> Result<i32, ErrorView> {
        match parse_int(string, i32::MIN as int, i32::MAX as int) {
            Ok(value) => Ok(value as i32),
            Err(kind) => Err(int_error(kind)),
        }
    }

    fn from_repr(string: &str) -> (result: Result<i32, Error>) {
        match parse_signed(string, i32::MIN as i128, i32::MAX as i128) {
            Ok(value) => Ok(value as i32),
            Err(kind) => Err(Error::ParseIntError(kind)),
        }
    }
}

impl FromRepr for u32 {
    open spec fn parse(string: Seq<char>) -> Result<u32, ErrorView> {
        match parse_int(string, 0, u32::MAX as int) {
            Ok(value) => Ok(value as u32),
            Err(kind) => Err(int_error(kind)),
        }
    }

    fn from_repr(string: &str) -> (result: Result<u32, Error>) {
        match parse_unsigned(string, u32::MAX as u128) {
            Ok(value) => Ok(value as u32),
            Err(kind) => Err(Error::ParseIntError(kind)),
        }
    }
}

impl FromRepr for i64 {
    open spec fn parse(string: Seq<char>) -> Result<i64, ErrorView> {
        match parse_int(string, i64::MIN as int, i64::MAX as int) {
            Ok(value) => Ok(value as i64),
            Err(kind) => Err(int_error(kind)),
        }
    }

    fn from_repr(string: &str) -> (result: Result<i64, Error>) {
        match parse_signed(string, i64::MIN as i128, i64::MAX as i128) {
            Ok(value) => Ok(value as i64),
            Err(kind) => Err(Error::ParseIntError(kind)),
        }
    }
}

impl FromRepr for u64 {
    open spec fn parse(string: Seq<char>) -> Result<u64, ErrorView> {
        match parse_int(string, 0, u64::MAX as int) {
            Ok(value) => Ok(value as u64),
            Err(kind) => Err(int_error(kind)),
        }
    }

    fn from_repr(string: &str) -> (result: Result<u64, Error>) {
        match parse_unsigned(string, u64::MAX as u128) {
            Ok(value) => Ok(value as u64),
            Err(kind) => Err(Error::ParseIntError(kind)),
        }
    }
}

impl FromRepr for i128 {
    open spec fn parse(string: Seq<char>) -> Result<i128, ErrorView> {
        match parse_int(string, i128::MIN as int, i128::MAX as int) {
            Ok(value) => Ok(value as i128),
            Err(kind) => Err(int_error(kind)),
        }
    }

    fn from_repr(string: &str) -> (result: Result<i128, Error>) {
        match parse_signed(string, i128::MIN as i128, i128::MAX as i128) {
            Ok(value) => Ok(value as i128),
            Err(kind) => Err(Error::ParseIntError(kind)),
        }
    }
}

impl FromRepr for u128 {
    open spec fn parse(string: Seq<char>) -> Result<u128, ErrorView> {
        match parse_int(string, 0, u128::MAX as int) {
            Ok(value) => Ok(value as u128),
            Err(kind) => Err(int_error(kind)),
        }
    }

    fn from_repr(string: &str) -> (result: Result<u128, Error>) {
        match parse_unsigned(string, u128::MAX as u128) {
            Ok(value) => Ok(value as u128),
            Err(kind) => Err(Error::ParseIntError(kind)),
        }
    }
}

impl FromRepr for isize {
    open spec fn parse(string: Seq<char>) -> Result<isize, ErrorView> {
        match parse_int(string, isize::MIN as int, isize::MAX as int) {
            Ok(value) => Ok(value as isize),
            Err(kind) => Err(int_error(kind)),
        }
    }

    fn from_repr(string: &str) -> (result: Result<isize, Error>) {
        match parse_signed(string, isize::MIN as i128, isize::MAX as i128) {
            Ok(value) => Ok(value as isize),
            Err(kind) => Err(Error::ParseIntError(kind)),
        }
    }
}

impl FromRepr for usize {
    open spec fn parse(string: Seq<char>) -> Result<usize, ErrorView> {
        match parse_int(string, 0, usize::MAX as int) {
            Ok(value) => Ok(value as usize),
            Err(kind) => Err(int_error(kind)),
        }
    }

    fn from_repr(string: &str) -> (result: Result<usize, Error>) {
        match parse_unsigned(string, usize::MAX as u128) {
            Ok(value) => Ok(value as usize),
            Err(kind) => Err(Error::ParseIntError(kind)),
        }
    }
}

impl FromRepr for String {
    open spec fn parse(string: Seq<char>) -> Result<Seq<char>, ErrorView> {
        Ok(string)
    }

    fn from_repr(string: &str) -> (result: Result<String, Error>) {
        Ok(String::from_str(string))
    }
}

} // verus!

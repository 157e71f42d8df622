//! Turning a scalar value into its text, giving the value up.

use vstd::prelude::*;
use crate::decimal::{format_signed, format_unsigned, int_repr};

verus! {

/// Converts a value to its string representation.
/// The opposite of [`crate::from_repr::FromRepr`].
pub trait IntoRepr: Sized {
    /// The text of the value.
    spec fn text(self) -> Seq<char>;

    fn into_repr(self) -> (repr: String)
        ensures
            repr@ == self.text(),
    ;
}

/// The text of a boolean: `true` or `false`.
pub open spec fn bool_repr(value: bool) -> Seq<char> {
    if value {
        seq!['t', 'r', 'u', 'e']
    } else {
        seq!['f', 'a', 'l', 's', 'e']
    }
}

impl IntoRepr for String {
    open spec fn text(self) -> Seq<char> {
        self@
    }

    fn into_repr(self) -> (repr: String) {
        self
    }
}

impl IntoRepr for &str {
    open spec fn text(self) -> Seq<char> {
        self@
    }

    fn into_repr(self) -> (repr: String) {
        String::from_str(self)
    }
}

impl IntoRepr for bool {
    open spec fn text(self) -> Seq<char> {
        bool_repr(self)
    }

    fn into_repr(self) -> (repr: String) {
        proof {
            reveal_strlit("true");
            reveal_strlit("false");
            assert("true"@ =~= seq!['t', 'r', 'u', 'e']);
            assert("false"@ =~= seq!['f', 'a', 'l', 's', 'e']);
        }
        if self {
            String::from_str("true")
        } else {
            String::from_str("false")
        }
    }
}

impl IntoRepr for i8 {
    open spec fn text(self) -> Seq<char> {
        int_repr(self as int)
    }

    fn into_repr(self) -> (repr: String) {
        format_signed(self as i128)
    }
}

impl IntoRepr for u8 {
    open spec fn text(self) -> Seq<char> {
        int_repr(self as int)
    }

    fn into_repr(self) -> (repr: String) {
        format_unsigned(self as u128)
    }
}

impl IntoRepr for i16 {
    open spec fn text(self) -> Seq<char> {
        int_repr(self as int)
    }

    fn into_repr(self) -> (repr: String) {
        format_signed(self as i128)
    }
}

impl IntoRepr for u16 {
    open spec fn text(self) -> Seq<char> {
        int_repr(self as int)
    }

    fn into_repr(self) -> (repr: String) {
        format_unsigned(self as u128)
    }
}

impl IntoRepr for i32 {
    open spec fn text(self) -> Seq<char> {
        int_repr(self as int)
    }

    fn into_repr(self) -> (repr: String) {
        format_signed(self as i128)
    }
}

impl IntoRepr for u32 {
    open spec fn text(self) -> Seq<char> {
        int_repr(self as int)
    }

    fn into_repr(self) -> (repr: String) {
        format_unsigned(self as u128)
    }
}

impl IntoRepr for i64 {
    open spec fn text(self) -> Seq<char> {
        int_repr(self as int)
    }

    fn into_repr(self) -> (repr: String) {
        format_signed(self as i128)
    }
}

impl IntoRepr for u64 {
    open spec fn text(self) -> Seq<char> {
        int_repr(self as int)
    }

    fn into_repr(self) -> (repr: String) {
        format_unsigned(self as u128)
    }
}

impl IntoRepr for i128 {
    open spec fn text(self) -> Seq<char> {
        int_repr(self as int)
    }

    fn into_repr(self) -> (repr: String) {
        format_signed(self as i128)
    }
}

impl IntoRepr for u128 {
    open spec fn text(self) -> Seq<char> {
        int_repr(self as int)
    }

    fn into_repr(self) -> (repr: String) {
        format_unsigned(self as u128)
    }
}

impl IntoRepr for isize {
    open spec fn text(self) -> Seq<char> {
        int_repr(self as int)
    }

    fn into_repr(self) -> (repr: String) {
        format_signed(self as i128)
    }
}

impl IntoRepr for usize {
    open spec fn text(self) -> Seq<char> {
        int_repr(self as int)
    }

    fn into_repr(self) -> (repr: String) {
        format_unsigned(self as u128)
    }
}

} // verus!

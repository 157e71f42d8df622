//! Turning a scalar value into its text, keeping the value.

use vstd::prelude::*;
use crate::decimal::{format_signed, format_unsigned, int_repr};

verus! {

/// Converts a value to its string representation.
/// The opposite of [`crate::from_repr::FromRepr`].
pub trait ToRepr {
    /// The text of the value.
    spec fn repr(&self) -> Seq<char>;

    fn to_repr(&self) -> (repr: String)
        ensures
            repr@ == self.repr(),
    ;
}

impl ToRepr for String {
    open spec fn repr(&self) -> Seq<char> {
        self@
    }

    fn to_repr(&self) -> (repr: String) {
        self.clone()
    }
}

impl ToRepr for &str {
    open spec fn repr(&self) -> Seq<char> {
        self@
    }

    fn to_repr(&self) -> (repr: String) {
        String::from_str(*self)
    }
}

impl ToRepr for i8 {
    open spec fn repr(&self) -> Seq<char> {
        int_repr(*self as int)
    }

    fn to_repr(&self) -> (repr: String) {
        format_signed(*self as i128)
    }
}

impl ToRepr for u8 {
    open spec fn repr(&self) -> Seq<char> {
        int_repr(*self as int)
    }

    fn to_repr(&self) -> (repr: String) {
        format_unsigned(*self as u128)
    }
}

impl ToRepr for i16 {
    open spec fn repr(&self) -> Seq<char> {
        int_repr(*self as int)
    }

    fn to_repr(&self) -> (repr: String) {
        format_signed(*self as i128)
    }
}

impl ToRepr for u16 {
    open spec fn repr(&self) -> Seq<char> {
        int_repr(*self as int)
    }

    fn to_repr(&self) -> (repr: String) {
        format_unsigned(*self as u128)
    }
}

impl ToRepr for i32 {
    open spec fn repr(&self) -> Seq<char> {
        int_repr(*self as int)
    }

    fn to_repr(&self) -> (repr: String) {
        format_signed(*self as i128)
    }
}

impl ToRepr for u32 {
    open spec fn repr(&self) -> Seq<char> {
        int_repr(*self as int)
    }

    fn to_repr(&self) -> (repr: String) {
        format_unsigned(*self as u128)
    }
}

impl ToRepr for i64 {
    open spec fn repr(&self) -> Seq<char> {
        int_repr(*self as int)
    }

    fn to_repr(&self) -> (repr: String) {
        format_signed(*self as i128)
    }
}

impl ToRepr for u64 {
    open spec fn repr(&self) -> Seq<char> {
        int_repr(*self as int)
    }

    fn to_repr(&self) -> (repr: String) {
        format_unsigned(*self as u128)
    }
}

impl ToRepr for i128 {
    open spec fn repr(&self) -> Seq<char> {
        int_repr(*self as int)
    }

    fn to_repr(&self) -> (repr: String) {
        format_signed(*self as i128)
    }
}

impl ToRepr for u128 {
    open spec fn repr(&self) -> Seq<char> {
        int_repr(*self as int)
    }

    fn to_repr(&self) -> (repr: String) {
        format_unsigned(*self as u128)
    }
}

impl ToRepr for isize {
    open spec fn repr(&self) -> Seq<char> {
        int_repr(*self as int)
    }

    fn to_repr(&self) -> (repr: String) {
        format_signed(*self as i128)
    }
}

impl ToRepr for usize {
    open spec fn repr(&self) -> Seq<char> {
        int_repr(*self as int)
    }

    fn to_repr(&self) -> (repr: String) {
        format_unsigned(*self as u128)
    }
}

} // verus!

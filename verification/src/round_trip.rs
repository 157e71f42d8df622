//! Reading the text of a scalar gives the scalar back.

use vstd::prelude::*;
use crate::decimal::lemma_parse_int_repr;
use crate::error::ErrorView;
use crate::from_repr::FromRepr;
use crate::into_repr::IntoRepr;

verus! {

/// A scalar type whose values come back unchanged from their text.
pub trait RoundTrip: FromRepr + IntoRepr {
    /// For every value of the type, the text that `into_repr` gives for it
    /// is read by `from_repr` as that same value.
    proof fn lemma_round_trip(value: Self)
        ensures
            Self::parse(value.text()) == Ok::<Self::V, ErrorView>(value@),
    ;
}

impl RoundTrip for bool {
    proof fn lemma_round_trip(value: bool) {
        assert(seq!['t', 'r', 'u', 'e'] != seq!['f', 'a', 'l', 's', 'e']) by {
            assert(seq!['t', 'r', 'u', 'e'].len() != seq!['f', 'a', 'l', 's', 'e'].len());
        }
    }
}

impl RoundTrip for i8 {
    proof fn lemma_round_trip(value: i8) {
        lemma_parse_int_repr(value as int, i8::MIN as int, i8::MAX as int);
    }
}

impl RoundTrip for u8 {
    proof fn lemma_round_trip(value: u8) {
        lemma_parse_int_repr(value as int, 0, u8::MAX as int);
    }
}

impl RoundTrip for i16 {
    proof fn lemma_round_trip(value: i16) {
        lemma_parse_int_repr(value as int, i16::MIN as int, i16::MAX as int);
    }
}

impl RoundTrip for u16 {
    proof fn lemma_round_trip(value: u16) {
        lemma_parse_int_repr(value as int, 0, u16::MAX as int);
    }
}

impl RoundTrip for i32 {
    proof fn lemma_round_trip(value: i32) {
        lemma_parse_int_repr(value as int, i32::MIN as int, i32::MAX as int);
    }
}

impl RoundTrip for u32 {
    proof fn lemma_round_trip(value: u32) {
        lemma_parse_int_repr(value as int, 0, u32::MAX as int);
    }
}

impl RoundTrip for i64 {
    proof fn lemma_round_trip(value: i64) {
        lemma_parse_int_repr(value as int, i64::MIN as int, i64::MAX as int);
    }
}

impl RoundTrip for u64 {
    proof fn lemma_round_trip(value: u64) {
        lemma_parse_int_repr(value as int, 0, u64::MAX as int);
    }
}

impl RoundTrip for i128 {
    proof fn lemma_round_trip(value: i128) {
        lemma_parse_int_repr(value as int, i128::MIN as int, i128::MAX as int);
    }
}

impl RoundTrip for u128 {
    proof fn lemma_round_trip(value: u128) {
        lemma_parse_int_repr(value as int, 0, u128::MAX as int);
    }
}

impl RoundTrip for isize {
    proof fn lemma_round_trip(value: isize) {
        lemma_parse_int_repr(value as int, isize::MIN as int, isize::MAX as int);
    }
}

impl RoundTrip for usize {
    proof fn lemma_round_trip(value: usize) {
        lemma_parse_int_repr(value as int, 0, usize::MAX as int);
    }
}

impl RoundTrip for String {
    proof fn lemma_round_trip(value: String) {
    }
}

} // verus!

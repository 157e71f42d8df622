//! Types that stand between a field and its text, for fields whose text is
//! that of another type.

use vstd::prelude::*;
use vstd::std_specs::convert::FromSpecImpl;
use crate::error::{Error, ErrorView};
use crate::from_repr::FromRepr;
use crate::into_repr::IntoRepr;

verus! {

/// Allows to represent a boolean as an integer.
#[derive(Debug)]
pub struct BooleanAsU8(pub u8);

impl View for BooleanAsU8 {
    type V = u8;

    open spec fn view(&self) -> u8 {
        self.0
    }
}

impl Default for BooleanAsU8 {
    fn default() -> (value: BooleanAsU8)
        ensures
            value.0 == 0,
    {
        BooleanAsU8(0)
    }
}

impl FromRepr for BooleanAsU8 {
    open spec fn parse(string: Seq<char>) -> Result<u8, ErrorView> {
        u8::parse(string)
    }

    fn from_repr(string: &str) -> (result: Result<BooleanAsU8, Error>) {
        match u8::from_repr(string) {
            Ok(value) => Ok(BooleanAsU8(value)),
            Err(error) => Err(error),
        }
    }
}

impl IntoRepr for BooleanAsU8 {
    open spec fn text(self) -> Seq<char> {
        self.0.text()
    }

    fn into_repr(self) -> (repr: String) {
        self.0.into_repr()
    }
}

impl From<bool> for BooleanAsU8 {
    fn from(value: bool) -> (repr: BooleanAsU8) {
        if value {
            BooleanAsU8(1)
        } else {
            BooleanAsU8(0)
        }
    }
}

impl FromSpecImpl<bool> for BooleanAsU8 {
    open spec fn obeys_from_spec() -> bool {
        true
    }

    open spec fn from_spec(value: bool) -> BooleanAsU8 {
        if value {
            BooleanAsU8(1)
        } else {
            BooleanAsU8(0)
        }
    }
}

impl From<BooleanAsU8> for bool {
    fn from(value: BooleanAsU8) -> (flag: bool) {
        value.0 != 0
    }
}

impl FromSpecImpl<BooleanAsU8> for bool {
    open spec fn obeys_from_spec() -> bool {
        true
    }

    open spec fn from_spec(value: BooleanAsU8) -> bool {
        value.0 != 0
    }
}

/// A boolean comes back from its integer: for every `flag`,
/// `bool::from(BooleanAsU8::from(flag))` is `flag`.
pub proof fn lemma_boolean_as_u8_round_trip(flag: bool)
    ensures
        <bool as vstd::std_specs::convert::FromSpec<BooleanAsU8>>::from_spec(
            <BooleanAsU8 as vstd::std_specs::convert::FromSpec<bool>>::from_spec(flag),
        ) == flag,
{
}

/// A point in time as the seconds since the first of January 1970, 0:00 UTC.
#[derive(Debug)]
pub struct DateTimeAsTimestamp(pub i64);

impl View for DateTimeAsTimestamp {
    type V = i64;

    open spec fn view(&self) -> i64 {
        self.0
    }
}

impl Default for DateTimeAsTimestamp {
    fn default() -> (value: DateTimeAsTimestamp)
        ensures
            value.0 == 0,
    {
        DateTimeAsTimestamp(0)
    }
}

impl FromRepr for DateTimeAsTimestamp {
    open spec fn parse(string: Seq<char>) -> Result<i64, ErrorView> {
        i64::parse(string)
    }

    fn from_repr(string: &str) -> (result: Result<DateTimeAsTimestamp, Error>) {
        match i64::from_repr(string) {
            Ok(value) => Ok(DateTimeAsTimestamp(value)),
            Err(error) => Err(error),
        }
    }
}

impl IntoRepr for DateTimeAsTimestamp {
    open spec fn text(self) -> Seq<char> {
        self.0.text()
    }

    fn into_repr(self) -> (repr: String) {
        self.0.into_repr()
    }
}

} // verus!

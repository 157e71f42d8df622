//! The errors of a conversion, and of deriving one.

use vstd::prelude::*;

verus! {

/// Why a text is not an integer of the wanted type.
#[derive(Clone, Copy, Debug, PartialEq, Eq, Structural)]
pub enum IntErrorKind {
    /// The text is empty.
    Empty,
    /// A character is no decimal digit, or the text is a sign alone.
    InvalidDigit,
    /// The number is above the largest value of the type.
    PosOverflow,
    /// The number is below the smallest value of the type.
    NegOverflow,
}

/// Why a conversion cannot be derived for a declaration.
#[derive(Clone, Copy, Debug, PartialEq, Eq, Structural)]
pub enum DeriveError {
    /// The declaration is an enum: enums are not implemented.
    Enum,
    /// A field has no name: unnamed fields are not implemented.
    UnnamedField,
    /// A field has neither a custom key nor a name.
    MissingIdent,
    /// A field is flattened: restoring a flattened field from a sequence of
    /// pairs is not implemented.
    FlattenedField,
    /// A field has no default: building a record from a sequence of pairs
    /// requires one on each field.
    MissingDefault,
    /// A field is flattened and has a default at the same time.
    FlattenWithDefault,
    /// A flattened field whose type is no record.
    NotAStruct,
    /// A field that is not flattened and whose type is a record.
    NotAScalar,
}

/// What a decode reports: the first field that could not be resolved.
#[derive(Debug, PartialEq, Eq)]
pub enum Error {
    /// The input doesn't contain the specified key.
    MissingKey(String),
    /// Could not parse a boolean value.
    ParseBoolError,
    /// Could not parse an integer.
    ParseIntError(IntErrorKind),
    /// Could not parse a floating-point number.
    ParseFloatError,
    /// Could not parse a network address.
    AddrParseError,
    /// Stands for the failure of a conversion that cannot fail.
    Infallible,
}

/// The mathematical content of an [`Error`].
pub enum ErrorView {
    MissingKey(Seq<char>),
    ParseBoolError,
    ParseIntError(IntErrorKind),
    ParseFloatError,
    AddrParseError,
    Infallible,
}

impl View for Error {
    type V = ErrorView;

    open spec fn view(&self) -> ErrorView {
        match self {
            Error::MissingKey(key) => ErrorView::MissingKey(key@),
            Error::ParseBoolError => ErrorView::ParseBoolError,
            Error::ParseIntError(kind) => ErrorView::ParseIntError(*kind),
            Error::ParseFloatError => ErrorView::ParseFloatError,
            Error::AddrParseError => ErrorView::AddrParseError,
            Error::Infallible => ErrorView::Infallible,
        }
    }
}

impl Clone for Error {
    fn clone(&self) -> (copy: Error)
        ensures
            copy@ == self@,
    {
        match self {
            Error::MissingKey(key) => Error::MissingKey(key.clone()),
            Error::ParseBoolError => Error::ParseBoolError,
            Error::ParseIntError(kind) => Error::ParseIntError(*kind),
            Error::ParseFloatError => Error::ParseFloatError,
            Error::AddrParseError => Error::AddrParseError,
            Error::Infallible => Error::Infallible,
        }
    }
}

impl Error {
    /// The message of the error.
    pub fn message(&self) -> (text: String)
        ensures
            text@ == self@.message(),
    {
        match self {
            Error::MissingKey(key) => {
                let mut text = String::from_str("missing key: `");
                text.append(key.as_str());
                text.append("`");
                text
            },
            Error::ParseBoolError => String::from_str("could not parse a boolean value"),
            Error::ParseIntError(_) => String::from_str("could not parse an integer"),
            Error::ParseFloatError => String::from_str("could not parse a floating-point number"),
            Error::AddrParseError => String::from_str("could not parse a network address"),
            Error::Infallible => String::from_str("infallible"),
        }
    }
}

impl ErrorView {
    /// The message of the error.
    pub open spec fn message(self) -> Seq<char> {
        match self {
            ErrorView::MissingKey(key) => "missing key: `"@ + key + "`"@,
            ErrorView::ParseBoolError => "could not parse a boolean value"@,
            ErrorView::ParseIntError(_) => "could not parse an integer"@,
            ErrorView::ParseFloatError => "could not parse a floating-point number"@,
            ErrorView::AddrParseError => "could not parse a network address"@,
            ErrorView::Infallible => "infallible"@,
        }
    }
}

} // verus!

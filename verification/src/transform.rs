//! Functions that stand in for the scalar codec: one that is applied to a
//! field's value before its text is made, one that is applied to what was
//! read from a text before the field gets it.

use vstd::prelude::*;
use crate::error::{Error, ErrorView};
use crate::from_repr::result_view;
use crate::scalar::{IntType, Scalar, ScalarType, ScalarView};
use crate::util::BooleanAsU8;
use crate::value::{Value, ValueView};

verus! {

/// A function from a field's value to the value whose text is written.
pub trait IntoReprWith: Copy {
    /// What the function makes of `value`.
    spec fn applied(&self, value: ValueView) -> ValueView;

    fn apply(&self, value: &Value) -> (out: Value)
        ensures
            out@ == self.applied(value@),
    ;
}

/// A function from what was read from a text to the value that a field gets,
/// or to an error.
pub trait FromReprWith: Copy {
    /// The type that the text is read as before the function is applied.
    spec fn reads(&self) -> ScalarType;

    /// What the function makes of `repr`.
    spec fn applied(&self, repr: ScalarView) -> Result<ScalarView, ErrorView>;

    fn repr_type(&self) -> (ty: ScalarType)
        ensures
            ty == self.reads(),
    ;

    fn apply(&self, repr: Scalar) -> (out: Result<Scalar, Error>)
        ensures
            result_view(out) == self.applied(repr@),
    ;
}

/// The function that hands every value on as it is; it reads a text as a
/// text.
#[derive(Clone, Copy, Debug)]
pub struct Identity;

impl IntoReprWith for Identity {
    open spec fn applied(&self, value: ValueView) -> ValueView {
        value
    }

    fn apply(&self, value: &Value) -> (out: Value) {
        value.clone()
    }
}

impl FromReprWith for Identity {
    open spec fn reads(&self) -> ScalarType {
        ScalarType::Str
    }

    open spec fn applied(&self, repr: ScalarView) -> Result<ScalarView, ErrorView> {
        Ok(repr)
    }

    fn repr_type(&self) -> (ty: ScalarType) {
        ScalarType::Str
    }

    fn apply(&self, repr: Scalar) -> (out: Result<Scalar, Error>) {
        Ok(repr)
    }
}

/// A boolean whose text is that of an integer: `1` for `true`, `0` for
/// `false`; any integer but zero reads as `true`.
#[derive(Clone, Copy, Debug)]
pub struct BoolAsInt;

impl IntoReprWith for BoolAsInt {
    open spec fn applied(&self, value: ValueView) -> ValueView {
        match value {
            ValueView::Scalar(ScalarView::Bool(flag)) => ValueView::Scalar(
                ScalarView::Int(IntType::U8, if flag { 1 } else { 0 }),
            ),
            other => other,
        }
    }

    fn apply(&self, value: &Value) -> (out: Value) {
        match value {
            Value::Scalar(Scalar::Bool(flag)) => Value::Scalar(Scalar::U8(BooleanAsU8::from(*flag).0)),
            other => other.clone(),
        }
    }
}

impl FromReprWith for BoolAsInt {
    open spec fn reads(&self) -> ScalarType {
        ScalarType::Int(IntType::U8)
    }

    open spec fn applied(&self, repr: ScalarView) -> Result<ScalarView, ErrorView> {
        match repr {
            ScalarView::Int(IntType::U8, number) => Ok(ScalarView::Bool(number != 0)),
            other => Ok(other),
        }
    }

    fn repr_type(&self) -> (ty: ScalarType) {
        ScalarType::Int(IntType::U8)
    }

    fn apply(&self, repr: Scalar) -> (out: Result<Scalar, Error>) {
        match repr {
            Scalar::U8(number) => Ok(Scalar::Bool(bool::from(BooleanAsU8(number)))),
            other => Ok(other),
        }
    }
}

} // verus!

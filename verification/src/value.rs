//! The values that the fields of a record hold.

use vstd::prelude::*;
use crate::scalar::{Scalar, ScalarView};

verus! {

/// The value of one field: a scalar, a scalar that may be absent, a
/// sequence, or a record of its own.
#[derive(Debug, PartialEq, Eq)]
pub enum Value {
    /// Exactly one scalar.
    Scalar(Scalar),
    /// A value that is present or absent.
    Optional(Option<Box<Value>>),
    /// Values in the order in which they were added; equal ones may repeat.
    Collection(Vec<Value>),
    /// The fields of a nested record, in the order of their declaration.
    Nested(Vec<Value>),
}

/// The mathematical content of a [`Value`].
pub enum ValueView {
    Scalar(ScalarView),
    Optional(Option<Box<ValueView>>),
    Collection(Seq<ValueView>),
    Nested(Seq<ValueView>),
}

/// The mathematical content of `value`.
pub open spec fn value_view(value: Value) -> ValueView
    decreases value,
{
    match value {
        Value::Scalar(scalar) => ValueView::Scalar(scalar@),
        Value::Optional(None) => ValueView::Optional(None),
        Value::Optional(Some(inner)) => ValueView::Optional(Some(Box::new(value_view(*inner)))),
        Value::Collection(items) => ValueView::Collection(
            Seq::new(
                items@.len(),
                |i: int|
                    if 0 <= i < items@.len() {
                        value_view(items@[i])
                    } else {
                        ValueView::Optional(None)
                    },
            ),
        ),
        Value::Nested(fields) => ValueView::Nested(
            Seq::new(
                fields@.len(),
                |i: int|
                    if 0 <= i < fields@.len() {
                        value_view(fields@[i])
                    } else {
                        ValueView::Optional(None)
                    },
            ),
        ),
    }
}

impl View for Value {
    type V = ValueView;

    open spec fn view(&self) -> ValueView {
        value_view(*self)
    }
}

/// The mathematical content of each value of a sequence.
pub open spec fn views(values: Seq<Value>) -> Seq<ValueView> {
    Seq::new(values.len(), |i: int| values[i]@)
}

/// A collection's content is that of its items, one by one; a nested
/// record's, that of its fields.
pub proof fn lemma_views(values: Vec<Value>)
    ensures
        Value::Collection(values)@ == ValueView::Collection(views(values@)),
        Value::Nested(values)@ == ValueView::Nested(views(values@)),
{
    assert(Value::Collection(values)@->Collection_0 =~= views(values@));
    assert(Value::Nested(values)@->Nested_0 =~= views(values@));
}

/// Copies each value of `values`.
pub fn clone_values(values: &Vec<Value>) -> (copy: Vec<Value>)
    ensures
        views(copy@) == views(values@),
    decreases values,
{
    let mut copy: Vec<Value> = Vec::new();
    let mut at: usize = 0;
    while at < values.len()
        invariant
            at <= values.len(),
            copy@.len() == at,
            forall|i: int| 0 <= i < at ==> copy@[i]@ == values@[i]@,
        decreases values.len() - at,
    {
        assert(decreases_to!(values => values[at as int]));
        let item = values[at].clone();
        copy.push(item);
        at = at + 1;
    }
    assert(views(copy@) =~= views(values@));
    copy
}

impl Clone for Value {
    fn clone(&self) -> (copy: Value)
        ensures
            copy@ == self@,
        decreases self,
    {
        match self {
            Value::Scalar(scalar) => Value::Scalar(scalar.clone()),
            Value::Optional(None) => Value::Optional(None),
            Value::Optional(Some(inner)) => {
                let copy = (**inner).clone();
                Value::Optional(Some(Box::new(copy)))
            },
            Value::Collection(items) => {
                let copy = clone_values(items);
                assert(Value::Collection(copy)@->Collection_0 =~= views(copy@));
                assert(self@->Collection_0 =~= views(items@));
                Value::Collection(copy)
            },
            Value::Nested(fields) => {
                let copy = clone_values(fields);
                assert(Value::Nested(copy)@->Nested_0 =~= views(copy@));
                assert(self@->Nested_0 =~= views(fields@));
                Value::Nested(copy)
            },
        }
    }
}

} // verus!

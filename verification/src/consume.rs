//! Consumers for fields whose shape says how they consume.

use vstd::prelude::*;
use crate::derive::{scalar_type, MatchFieldConsumer};
use crate::error::DeriveError;
use crate::field::{Field, Type, ValueExpr};
use crate::scalar::ScalarType;

verus! {

/// The part of `field` among the consumers of a record: it answers to the
/// field's key and reads the text as the field's scalar type.
pub open spec fn consume_field<I, F>(field: &Field<I, F>) -> MatchFieldConsumer<F> {
    MatchFieldConsumer {
        key: field.key(),
        ident: field.ident->0,
        consumer: field.consumer_expr(),
        value: ValueExpr::FromStr,
        ty: scalar_type(field),
    }
}

/// Why `field` has no consumer, if so: it has no name, or it is flattened
/// (restoring a flattened structure is not possible).
pub open spec fn consume_error<I, F>(field: &Field<I, F>) -> Option<DeriveError> {
    if field.ident is None {
        Some(DeriveError::UnnamedField)
    } else if field.flatten is Some {
        Some(DeriveError::FlattenedField)
    } else {
        None
    }
}

/// The consumer of one field, or why it has none.
pub fn generate_field_consumer<I, F>(field: &Field<I, F>) -> (result: Result<
    MatchFieldConsumer<F>,
    DeriveError,
>)
    ensures
        match result {
            Ok(consumer) => consume_error(field) is None && consumer == consume_field(field),
            Err(error) => consume_error(field) == Some(error),
        },
{
    if field.ident.is_none() {
        return Err(DeriveError::UnnamedField);
    }
    let ident = field.get_ident();
    let key = field.get_key();
    if field.flatten.is_some() {
        return Err(DeriveError::FlattenedField);
    }
    let ty = match &field.ty {
        Type::Scalar(ty) => *ty,
        Type::Struct(_) => ScalarType::Bool,
    };
    Ok(
        MatchFieldConsumer {
            key,
            ident: ident.clone(),
            consumer: field.consumer(),
            value: ValueExpr::FromStr,
            ty,
        },
    )
}

/// The error of the first field, from `from` on, that has no consumer.
pub open spec fn first_consume_error<I, F>(fields: Seq<Field<I, F>>, from: int) -> Option<
    DeriveError,
>
    decreases fields.len() - from,
{
    if from < 0 || from >= fields.len() {
        None
    } else {
        match consume_error(&fields[from]) {
            Some(error) => Some(error),
            None => first_consume_error(fields, from + 1),
        }
    }
}

/// The consumers of the fields, in their order, or the error of the first
/// field that has none.
pub fn generate_field_consumers<I, F>(fields: &Vec<Field<I, F>>) -> (result: Result<
    Vec<MatchFieldConsumer<F>>,
    DeriveError,
>)
    ensures
        match result {
            Ok(consumers) => first_consume_error(fields@, 0) is None && consumers@ == Seq::new(
                fields@.len(),
                |i: int| consume_field(&fields@[i]),
            ),
            Err(error) => first_consume_error(fields@, 0) == Some(error),
        },
{
    let mut consumers: Vec<MatchFieldConsumer<F>> = Vec::new();
    let mut at: usize = 0;
    while at < fields.len()
        invariant
            at <= fields.len(),
            first_consume_error(fields@, 0) == first_consume_error(fields@, at as int),
            consumers@.len() == at,
            forall|i: int| 0 <= i < at ==> consumers@[i] == consume_field(&fields@[i]),
        decreases fields.len() - at,
    {
        match generate_field_consumer(&fields[at]) {
            Ok(consumer) => consumers.push(consumer),
            Err(error) => {
                return Err(error);
            },
        }
        at = at + 1;
    }
    assert(consumers@ =~= Seq::new(fields@.len(), |i: int| consume_field(&fields@[i])));
    Ok(consumers)
}

} // verus!

//! Producers for fields whose shape says how they are produced.

use vstd::prelude::*;
use crate::derive::{FieldProducer, ProducerExpr};
use crate::error::DeriveError;
use crate::field::Field;

verus! {

/// The producer of a field by its shape alone: a flattened field forwards
/// the pairs of its record, behind the prefix where there is one; any
/// other is a scalar, made optional where the field is optional, and that
/// made a collection where the field is one.
pub open spec fn shape_producer<I, F>(field: &Field<I, F>) -> ProducerExpr<I> {
    match field.flatten {
        Some(flatten) => match flatten.prefix {
            None => ProducerExpr::Flattening,
            Some(prefix) => ProducerExpr::PrefixedFlattening(prefix),
        },
        None => {
            let optional = if field.is_optional {
                ProducerExpr::Optional(Box::new(ProducerExpr::Scalar))
            } else {
                ProducerExpr::Scalar
            };
            if field.is_collection {
                ProducerExpr::Collection(Box::new(optional))
            } else {
                optional
            }
        },
    }
}

/// The part of `field` among the producers of a record.
pub open spec fn produce_field<'a, I, F>(field: &'a Field<I, F>) -> FieldProducer<'a, I, F> {
    FieldProducer {
        ident: field.ident->0,
        key: field.key(),
        producer: shape_producer(field),
        ty: &field.ty,
    }
}

/// The producer of one field, or why it has none: the field has no name.
pub fn generate_produce_field<'a, I, F>(field: &'a Field<I, F>) -> (result: Result<
    FieldProducer<'a, I, F>,
    DeriveError,
>)
    ensures
        match result {
            Ok(producer) => field.ident is Some && producer == produce_field(field),
            Err(error) => field.ident is None && error == DeriveError::UnnamedField,
        },
{
    if field.ident.is_none() {
        return Err(DeriveError::UnnamedField);
    }
    let ident = field.get_ident();
    let key = field.get_key();
    let producer = match &field.flatten {
        Some(flatten) => match &flatten.prefix {
            None => ProducerExpr::Flattening,
            Some(prefix) => ProducerExpr::PrefixedFlattening(prefix.clone()),
        },
        _ => {
            let mut producer = ProducerExpr::Scalar;
            if field.is_optional {
                producer = ProducerExpr::Optional(Box::new(producer));
            }
            if field.is_collection {
                producer = ProducerExpr::Collection(Box::new(producer));
            }
            producer
        },
    };
    Ok(FieldProducer { ident: ident.clone(), key, producer, ty: &field.ty })
}

/// The first field, from `from` on, that has no name.
pub open spec fn first_unnamed<I, F>(fields: Seq<Field<I, F>>, from: int) -> Option<int>
    decreases fields.len() - from,
{
    if from < 0 || from >= fields.len() {
        None
    } else if fields[from].ident is None {
        Some(from)
    } else {
        first_unnamed(fields, from + 1)
    }
}

/// The producers of the fields, in their order, or `UnnamedField` where a
/// field has no name.
pub fn generate_produce_fields<'a, I, F>(fields: &'a Vec<Field<I, F>>) -> (result: Result<
    Vec<FieldProducer<'a, I, F>>,
    DeriveError,
>)
    ensures
        match result {
            Ok(producers) => first_unnamed(fields@, 0) is None && producers@ == Seq::new(
                fields@.len(),
                |i: int| produce_field(&fields@[i]),
            ),
            Err(error) => first_unnamed(fields@, 0) is Some && error == DeriveError::UnnamedField,
        },
{
    let mut producers: Vec<FieldProducer<'a, I, F>> = Vec::new();
    let mut at: usize = 0;
    while at < fields.len()
        invariant
            at <= fields.len(),
            first_unnamed(fields@, 0) == first_unnamed(fields@, at as int),
            producers@.len() == at,
            forall|i: int| 0 <= i < at ==> producers@[i] == produce_field(&fields@[i]),
        decreases fields.len() - at,
    {
        match generate_produce_field(&fields[at]) {
            Ok(producer) => producers.push(producer),
            Err(error) => {
                return Err(error);
            },
        }
        at = at + 1;
    }
    assert(producers@ =~= Seq::new(fields@.len(), |i: int| produce_field(&fields@[i])));
    Ok(producers)
}

} // verus!

//! Conversions between records and flat lists of key-value strings.

use vstd::prelude::*;
use crate::derive::{DefaultExpr, FieldDefault, FieldProducer, FromIterImpl, IntoVecImpl};
use crate::derive::{MatchFieldConsumer, ProducerExpr};
use crate::error::DeriveError;
use crate::field::{ConsumerExpr, Field, Type, ValueExpr};
use crate::opts::{Data, MacroOpts};

pub mod consume;
pub mod consumer;
pub mod decimal;
pub mod decoder;
pub mod derive;
pub mod encoder;
pub mod error;
pub mod field;
pub mod from_iter;
pub mod from_mapping;
pub mod from_repr;
pub mod into_repr;
pub mod into_vec;
pub mod laws;
pub mod mapped;
pub mod opts;
pub mod produce;
pub mod producer;
pub mod round_trip;
pub mod scalar;
pub mod text;
pub mod to_repr;
pub mod transform;
pub mod util;
pub mod value;

verus! {

/// Why a record of plain scalars cannot be converted with `field`, if so:
/// it has no name, or it holds a record.
pub open spec fn plain_error<I, F>(field: Field<I, F>) -> Option<DeriveError> {
    if field.ident is None {
        Some(DeriveError::UnnamedField)
    } else if field.ty is Struct {
        Some(DeriveError::NotAScalar)
    } else {
        None
    }
}

/// The error of the first field, from `from` on, that has one.
pub open spec fn first_plain_error<I, F>(fields: Seq<Field<I, F>>, from: int) -> Option<
    DeriveError,
>
    decreases fields.len() - from,
{
    if from < 0 || from >= fields.len() {
        None
    } else {
        match plain_error(fields[from]) {
            Some(error) => Some(error),
            None => first_plain_error(fields, from + 1),
        }
    }
}

/// Why a record of plain scalars cannot be converted, if so: the
/// declaration is an enum, or else the error of the first field that has
/// one.
pub open spec fn plain_opts_error<I, F>(opts: MacroOpts<I, F>) -> Option<DeriveError> {
    match opts.data {
        Data::Enum => Some(DeriveError::Enum),
        Data::Struct(fields) => first_plain_error(fields@, 0),
    }
}

/// The producer of a plain scalar field: one pair under the field's name.
pub open spec fn plain_producer<'a, I, F>(field: &'a Field<I, F>) -> FieldProducer<'a, I, F> {
    FieldProducer {
        ident: field.ident->0,
        key: field.ident->0,
        producer: ProducerExpr::Scalar,
        ty: &field.ty,
    }
}

/// The default of a plain scalar field: that of its type.
pub open spec fn plain_default<'a, I, F>(field: &'a Field<I, F>) -> FieldDefault<'a> {
    FieldDefault {
        ident: field.ident->0,
        value: DefaultExpr::Default,
        consumer: ConsumerExpr::Scalar,
        ty: crate::derive::scalar_type(field),
    }
}

/// The consumer of a plain scalar field: it answers to the field's name,
/// and each value replaces the one before.
pub open spec fn plain_consumer<I, F>(field: &Field<I, F>) -> MatchFieldConsumer<F> {
    MatchFieldConsumer {
        key: field.ident->0,
        ident: field.ident->0,
        consumer: ConsumerExpr::Scalar,
        value: ValueExpr::FromStr,
        ty: crate::derive::scalar_type(field),
    }
}

/// Derives the conversion of a record of plain scalars into its pairs: one
/// pair for each field, the field's name and the text of its value, in the
/// order of the declaration.
pub fn to_vec<'a, I, F>(opts: &'a MacroOpts<I, F>) -> (result: Result<
    IntoVecImpl<'a, I, F>,
    DeriveError,
>)
    ensures
        match result {
            Ok(derived) => {
                &&& plain_opts_error(*opts) is None
                &&& derived.ident == opts.ident
                &&& derived.producers@ == Seq::new(
                    opts.fields().len(),
                    |i: int| plain_producer(&opts.fields()[i]),
                )
                &&& derived.wf()
            },
            Err(error) => plain_opts_error(*opts) == Some(error),
        },
{
    let fields = match &opts.data {
        Data::Enum => {
            return Err(DeriveError::Enum);
        },
        Data::Struct(fields) => fields,
    };
    let mut producers: Vec<FieldProducer<'a, I, F>> = Vec::new();
    let mut at: usize = 0;
    while at < fields.len()
        invariant
            at <= fields.len(),
            opts.data == Data::Struct(*fields),
            first_plain_error(fields@, 0) == first_plain_error(fields@, at as int),
            producers@.len() == at,
            forall|i: int| 0 <= i < at ==> producers@[i] == plain_producer(&fields@[i]),
            forall|i: int| 0 <= i < at ==> (#[trigger] fields@[i]).ty is Scalar,
        decreases fields.len() - at,
    {
        let field = &fields[at];
        if field.ident.is_none() {
            return Err(DeriveError::UnnamedField);
        }
        if let Type::Struct(_) = &field.ty {
            return Err(DeriveError::NotAScalar);
        }
        let ident = field.get_ident();
        producers.push(
            FieldProducer {
                ident: ident.clone(),
                key: ident.clone(),
                producer: ProducerExpr::Scalar,
                ty: &field.ty,
            },
        );
        at = at + 1;
    }
    assert(producers@ =~= Seq::new(
        opts.fields().len(),
        |i: int| plain_producer(&opts.fields()[i]),
    ));
    Ok(IntoVecImpl { ident: opts.ident.clone(), producers })
}

/// Derives the conversion of a sequence of pairs into a record of plain
/// scalars: every field starts from the default of its type, and each pair
/// under a field's name replaces the field's value.
pub fn from_iter<'a, I, F>(opts: &'a MacroOpts<I, F>) -> (result: Result<
    FromIterImpl<'a, F>,
    DeriveError,
>)
    ensures
        match result {
            Ok(derived) => {
                &&& plain_opts_error(*opts) is None
                &&& derived.ident == opts.ident
                &&& derived.defaults@ == Seq::new(
                    opts.fields().len(),
                    |i: int| plain_default(&opts.fields()[i]),
                )
                &&& derived.consumers@ == Seq::new(
                    opts.fields().len(),
                    |i: int| plain_consumer(&opts.fields()[i]),
                )
            },
            Err(error) => plain_opts_error(*opts) == Some(error),
        },
{
    let fields = match &opts.data {
        Data::Enum => {
            return Err(DeriveError::Enum);
        },
        Data::Struct(fields) => fields,
    };
    let mut defaults: Vec<FieldDefault<'a>> = Vec::new();
    let mut consumers: Vec<MatchFieldConsumer<F>> = Vec::new();
    let mut at: usize = 0;
    while at < fields.len()
        invariant
            at <= fields.len(),
            opts.data == Data::Struct(*fields),
            first_plain_error(fields@, 0) == first_plain_error(fields@, at as int),
            defaults@.len() == at,
            consumers@.len() == at,
            forall|i: int| 0 <= i < at ==> defaults@[i] == plain_default(&fields@[i]),
            forall|i: int| 0 <= i < at ==> consumers@[i] == plain_consumer(&fields@[i]),
        decreases fields.len() - at,
    {
        let field = &fields[at];
        if field.ident.is_none() {
            return Err(DeriveError::UnnamedField);
        }
        let ty = match &field.ty {
            Type::Scalar(ty) => *ty,
            Type::Struct(_) => {
                return Err(DeriveError::NotAScalar);
            },
        };
        let ident = field.get_ident();
        defaults.push(
            FieldDefault {
                ident: ident.clone(),
                value: DefaultExpr::Default,
                consumer: ConsumerExpr::Scalar,
                ty,
            },
        );
        consumers.push(
            MatchFieldConsumer {
                key: ident.clone(),
                ident: ident.clone(),
                consumer: ConsumerExpr::Scalar,
                value: ValueExpr::FromStr,
                ty,
            },
        );
        at = at + 1;
    }
    assert(defaults@ =~= Seq::new(opts.fields().len(), |i: int| plain_default(&opts.fields()[i])));
    assert(consumers@ =~= Seq::new(
        opts.fields().len(),
        |i: int| plain_consumer(&opts.fields()[i]),
    ));
    Ok(FromIterImpl { ident: opts.ident.clone(), defaults, consumers })
}

} // verus!

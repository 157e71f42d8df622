//! Deriving the conversions of a record from its declaration.

use vstd::prelude::*;
use crate::error::DeriveError;
use crate::field::{ConsumerExpr, Field, Type, ValueExpr};
use crate::scalar::ScalarType;
use crate::value::Value;
use crate::opts::{Data, MacroOpts};

verus! {

/// How a field's value is turned into pairs.
pub enum ProducerExpr<I> {
    /// One pair: the key and the text of the scalar.
    Scalar,
    /// The pairs of the nested record.
    Flattening,
    /// The pairs of the nested record, each key behind the prefix.
    PrefixedFlattening(String),
    /// The value goes through a function before the inner producer gets it.
    Wrapped(Box<ProducerExpr<I>>, I),
    /// No pair where the value is absent, else what the inner producer gives.
    Optional(Box<ProducerExpr<I>>),
    /// What the inner producer gives for each element, in their order.
    Collection(Box<ProducerExpr<I>>),
}

/// The part of one field in a derived [`crate::into_vec::IntoVec`].
pub struct FieldProducer<'a, I, F> {
    pub ident: String,
    pub key: String,
    pub producer: ProducerExpr<I>,
    pub ty: &'a Type<I, F>,
}

/// A derived [`crate::into_vec::IntoVec`]: the producers of the fields, in
/// the order in which the fields are declared.
pub struct IntoVecImpl<'a, I, F> {
    pub ident: String,
    pub producers: Vec<FieldProducer<'a, I, F>>,
}

/// The producer of a field: by its flattening the innermost one, that
/// wrapped where `into_repr_with` is given, made optional where the field is
/// optional, and that made a collection where the field is one.
pub open spec fn producer_expr<I, F>(field: &Field<I, F>) -> ProducerExpr<I> {
    let base = match field.flatten {
        Some(flatten) => match flatten.prefix {
            Some(prefix) => ProducerExpr::PrefixedFlattening(prefix),
            None => ProducerExpr::Flattening,
        },
        None => ProducerExpr::Scalar,
    };
    let wrapped = match field.into_repr_with {
        Some(with) => ProducerExpr::Wrapped(Box::new(base), with),
        None => base,
    };
    let optional = if field.is_optional {
        ProducerExpr::Optional(Box::new(wrapped))
    } else {
        wrapped
    };
    if field.is_collection {
        ProducerExpr::Collection(Box::new(optional))
    } else {
        optional
    }
}

/// The part of `field` in the derived conversion.
pub open spec fn field_producer<'a, I, F>(field: &'a Field<I, F>) -> FieldProducer<'a, I, F> {
    FieldProducer {
        ident: field.ident->0,
        key: field.key(),
        producer: producer_expr(field),
        ty: &field.ty,
    }
}

/// Why no [`crate::into_vec::IntoVec`] can be derived with `field`, if so:
/// it has no name, or its flattening and its type do not go together, or
/// the record that it flattens has such a field itself.
pub open spec fn field_into_vec_error<I, F>(field: Field<I, F>) -> Option<DeriveError>
    decreases field, 0nat,
{
    if field.ident is None {
        Some(DeriveError::UnnamedField)
    } else {
        match field.ty {
            Type::Scalar(_) => if field.flatten is Some {
                Some(DeriveError::NotAStruct)
            } else {
                None
            },
            Type::Struct(nested) => if field.flatten is Some {
                into_vec_error(*nested)
            } else {
                Some(DeriveError::NotAScalar)
            },
        }
    }
}

/// The error of the first field, from `from` on, that has one.
pub open spec fn fields_into_vec_error<I, F>(fields: Seq<Field<I, F>>, from: int) -> Option<
    DeriveError,
>
    decreases fields, fields.len() - from,
{
    if from < 0 || from >= fields.len() {
        None
    } else {
        match field_into_vec_error(fields[from]) {
            Some(error) => Some(error),
            None => fields_into_vec_error(fields, from + 1),
        }
    }
}

/// Why no [`crate::into_vec::IntoVec`] can be derived for `opts`, if so:
/// it declares an enum, or else the error of its first field that has one.
pub open spec fn into_vec_error<I, F>(opts: MacroOpts<I, F>) -> Option<DeriveError>
    decreases opts, 0nat,
{
    match opts.data {
        Data::Enum => Some(DeriveError::Enum),
        Data::Struct(fields) => fields_into_vec_error(fields@, 0),
    }
}

/// The producer of each field.
pub open spec fn field_producers<'a, I, F>(fields: Seq<Field<I, F>>) -> Seq<
    FieldProducer<'a, I, F>,
> {
    Seq::new(fields.len(), |i: int| field_producer(&fields[i]))
}

/// Whether the pairs of a field of type `ty` can be made: a record that it
/// holds is one for which the conversion can be derived.
pub open spec fn type_wf<I, F>(ty: Type<I, F>) -> bool {
    ty matches Type::Struct(nested) ==> into_vec_error(*nested) is None
}

/// Where no field has an error from `from` on, none of those fields has one.
pub proof fn lemma_no_field_error<I, F>(fields: Seq<Field<I, F>>, from: int, at: int)
    requires
        0 <= from <= at < fields.len(),
        fields_into_vec_error(fields, from) is None,
    ensures
        field_into_vec_error(fields[at]) is None,
    decreases at - from,
{
    reveal_with_fuel(fields_into_vec_error, 2);
    if from < at {
        lemma_no_field_error(fields, from + 1, at);
    }
}

impl<'a, I, F> IntoVecImpl<'a, I, F> {
    /// Whether the pairs of every field can be made.
    pub open spec fn wf(&self) -> bool {
        forall|i: int| 0 <= i < self.producers@.len() ==> type_wf(*(#[trigger] self.producers@[i]).ty)
    }
}

/// The part of `field` in the derived conversion.
pub fn generate_field_producer<'a, I: Copy, F>(field: &'a Field<I, F>) -> (producer: FieldProducer<
    'a,
    I,
    F,
>)
    requires
        field.ident is Some,
    ensures
        producer == field_producer(field),
{
    let ident = field.get_ident();
    let key = field.get_key();
    let mut producer = if let Some(flatten) = &field.flatten {
        if let Some(prefix) = &flatten.prefix {
            ProducerExpr::PrefixedFlattening(prefix.clone())
        } else {
            ProducerExpr::Flattening
        }
    } else {
        ProducerExpr::Scalar
    };
    if let Some(into_repr_with) = &field.into_repr_with {
        producer = ProducerExpr::Wrapped(Box::new(producer), *into_repr_with);
    }
    if field.is_optional {
        producer = ProducerExpr::Optional(Box::new(producer));
    }
    if field.is_collection {
        producer = ProducerExpr::Collection(Box::new(producer));
    }
    FieldProducer { ident: ident.clone(), key, producer, ty: &field.ty }
}

/// Derives [`crate::into_vec::IntoVec`].
///
/// It is derived for a struct whose fields have names, where each flattened
/// field holds a record for which it can be derived and no other field
/// holds a record. Otherwise the first thing in the way is reported.
pub fn derive_into_vec<'a, I: Copy, F>(opts: &'a MacroOpts<I, F>) -> (result: Result<
    IntoVecImpl<'a, I, F>,
    DeriveError,
>)
    ensures
        match result {
            Ok(derived) => {
                &&& into_vec_error(*opts) is None
                &&& derived.ident == opts.ident
                &&& derived.producers@ == field_producers(opts.fields())
                &&& derived.wf()
            },
            Err(error) => into_vec_error(*opts) == Some(error),
        },
    decreases opts,
{
    let fields = match &opts.data {
        Data::Enum => {
            return Err(DeriveError::Enum);
        },
        Data::Struct(fields) => fields,
    };
    let mut producers: Vec<FieldProducer<'a, I, F>> = Vec::new();
    let mut at: usize = 0;
    while at < fields.len()
        invariant
            at <= fields.len(),
            opts.data == Data::Struct(*fields),
            fields_into_vec_error(fields@, 0) == fields_into_vec_error(fields@, at as int),
            producers@.len() == at,
            forall|i: int| 0 <= i < at ==> producers@[i] == field_producer(&fields@[i]),
        decreases fields.len() - at,
    {
        let field = &fields[at];
        proof {
            reveal_with_fuel(fields_into_vec_error, 2);
            reveal_with_fuel(field_into_vec_error, 2);
            reveal_with_fuel(into_vec_error, 2);
        }
        if field.ident.is_none() {
            return Err(DeriveError::UnnamedField);
        }
        match &field.ty {
            Type::Scalar(_) => {
                if field.flatten.is_some() {
                    return Err(DeriveError::NotAStruct);
                }
            },
            Type::Struct(nested) => {
                if field.flatten.is_none() {
                    return Err(DeriveError::NotAScalar);
                }
                proof {
                    assert(decreases_to!(opts => opts.data));
                    assert(decreases_to!(opts.data => opts.data->Struct_0));
                    assert(decreases_to!(*fields => fields@[at as int]));
                    assert(decreases_to!(fields@[at as int] => fields@[at as int].ty));
                    assert(decreases_to!(fields@[at as int].ty => fields@[at as int].ty->Struct_0));
                }
                match derive_into_vec(&**nested) {
                    Ok(_) => {},
                    Err(error) => {
                        return Err(error);
                    },
                }
            },
        }
        producers.push(generate_field_producer(field));
        at = at + 1;
    }
    assert(producers@ =~= field_producers(opts.fields()));
    proof {
        assert forall|i: int| 0 <= i < producers@.len() implies type_wf(
            *(#[trigger] producers@[i]).ty,
        ) by {
            lemma_no_field_error(fields@, 0, i);
            reveal_with_fuel(field_into_vec_error, 2);
        }
    }
    Ok(IntoVecImpl { ident: opts.ident.clone(), producers })
}

/// What a field holds before any pair is read.
pub enum DefaultExpr<'a> {
    /// The value that the declaration gives.
    Value(&'a Value),
    /// The default of the field's type.
    Default,
}

/// The default of one field in a derived [`crate::from_iter::FromIter`].
pub struct FieldDefault<'a> {
    pub ident: String,
    pub value: DefaultExpr<'a>,
    pub consumer: ConsumerExpr,
    pub ty: ScalarType,
}

/// The part of one field in a derived [`crate::from_iter::FromIter`]: the
/// key that it answers to, and what it does with the text that comes.
pub struct MatchFieldConsumer<F> {
    pub key: String,
    pub ident: String,
    pub consumer: ConsumerExpr,
    pub value: ValueExpr<F>,
    pub ty: ScalarType,
}

/// A derived [`crate::from_iter::FromIter`]: the defaults of the fields and
/// their consumers, both in the order in which the fields are declared.
pub struct FromIterImpl<'a, F> {
    pub ident: String,
    pub defaults: Vec<FieldDefault<'a>>,
    pub consumers: Vec<MatchFieldConsumer<F>>,
}

/// The scalar type of a field; that of booleans where the field holds a
/// record.
pub open spec fn scalar_type<I, F>(field: &Field<I, F>) -> ScalarType {
    match field.ty {
        Type::Scalar(ty) => ty,
        Type::Struct(_) => ScalarType::Bool,
    }
}

/// The default of `field` in the derived conversion.
pub open spec fn field_default<'a, I, F>(field: &'a Field<I, F>) -> FieldDefault<'a> {
    FieldDefault {
        ident: field.ident->0,
        value: match field.default->0.value {
            Some(value) => DefaultExpr::Value(&value),
            None => DefaultExpr::Default,
        },
        consumer: field.consumer_expr(),
        ty: scalar_type(field),
    }
}

/// The consumer of `field` in the derived conversion.
pub open spec fn match_field_consumer<I, F>(field: &Field<I, F>) -> MatchFieldConsumer<F> {
    MatchFieldConsumer {
        key: field.key(),
        ident: field.ident->0,
        consumer: field.consumer_expr(),
        value: field.wrapped(ValueExpr::FromStr),
        ty: scalar_type(field),
    }
}

/// Why `field` has no default in a derived [`crate::from_iter::FromIter`],
/// if so: it has no name, or no default is declared for it.
pub open spec fn field_default_error<I, F>(field: Field<I, F>) -> Option<DeriveError> {
    if field.ident is None {
        Some(DeriveError::UnnamedField)
    } else if field.default is None {
        Some(DeriveError::MissingDefault)
    } else {
        None
    }
}

/// Why `field` has no consumer in a derived [`crate::from_iter::FromIter`],
/// if so: it is flattened, or it holds a record.
pub open spec fn field_consumer_error<I, F>(field: Field<I, F>) -> Option<DeriveError> {
    if field.flatten is Some {
        Some(DeriveError::FlattenedField)
    } else if field.ty is Struct {
        Some(DeriveError::NotAScalar)
    } else {
        None
    }
}

/// The error of the first field, from `from` on, that has no default.
pub open spec fn defaults_error<I, F>(fields: Seq<Field<I, F>>, from: int) -> Option<DeriveError>
    decreases fields.len() - from,
{
    if from < 0 || from >= fields.len() {
        None
    } else {
        match field_default_error(fields[from]) {
            Some(error) => Some(error),
            None => defaults_error(fields, from + 1),
        }
    }
}

/// The error of the first field, from `from` on, that has no consumer.
pub open spec fn consumers_error<I, F>(fields: Seq<Field<I, F>>, from: int) -> Option<DeriveError>
    decreases fields.len() - from,
{
    if from < 0 || from >= fields.len() {
        None
    } else {
        match field_consumer_error(fields[from]) {
            Some(error) => Some(error),
            None => consumers_error(fields, from + 1),
        }
    }
}

/// Why no [`crate::from_iter::FromIter`] can be derived for `opts`, if so:
/// it declares an enum; or else a field has no name or no default; or else
/// a field is flattened or holds a record. Of several fields the first
/// counts.
pub open spec fn from_iter_error<I, F>(opts: MacroOpts<I, F>) -> Option<DeriveError> {
    match opts.data {
        Data::Enum => Some(DeriveError::Enum),
        Data::Struct(fields) => match defaults_error(fields@, 0) {
            Some(error) => Some(error),
            None => consumers_error(fields@, 0),
        },
    }
}

/// Where a field is flattened, some field has an error: one before it, or
/// the field itself.
pub proof fn lemma_flattened_has_error<I, F>(fields: Seq<Field<I, F>>, from: int, at: int)
    requires
        0 <= from <= at < fields.len(),
        fields[at].flatten is Some,
    ensures
        consumers_error(fields, from) is Some,
    decreases at - from,
{
    if from < at {
        lemma_flattened_has_error(fields, from + 1, at);
    }
}

/// The default of each field.
pub open spec fn field_defaults<'a, I, F>(fields: Seq<Field<I, F>>) -> Seq<FieldDefault<'a>> {
    Seq::new(fields.len(), |i: int| field_default(&fields[i]))
}

/// The consumer of each field.
pub open spec fn match_field_consumers<I, F>(fields: Seq<Field<I, F>>) -> Seq<
    MatchFieldConsumer<F>,
> {
    Seq::new(fields.len(), |i: int| match_field_consumer(&fields[i]))
}

/// The consumer of `field` in the derived conversion.
pub fn generate_match_field_consumer<I, F: Copy>(field: &Field<I, F>) -> (consumer: MatchFieldConsumer<
    F,
>)
    requires
        field.flatten is None,
        field.ident is Some,
        field.ty is Scalar,
    ensures
        consumer == match_field_consumer(field),
{
    let ident = field.get_ident();
    let key = field.get_key();
    let consumer = field.consumer();
    let value = field.wrap_from_repr_with(ValueExpr::FromStr);
    let ty = match &field.ty {
        Type::Scalar(ty) => *ty,
        Type::Struct(_) => ScalarType::Bool,
    };
    MatchFieldConsumer { key, ident: ident.clone(), consumer, value, ty }
}

/// Derives [`crate::from_iter::FromIter`].
///
/// It is derived for a struct whose fields have a name and a default, none
/// of them flattened or holding a record. Otherwise the first thing in the
/// way is reported: so a declaration with a flattened field is always
/// turned down, before any record is built.
pub fn derive_from_iter<'a, I, F: Copy>(opts: &'a MacroOpts<I, F>) -> (result: Result<
    FromIterImpl<'a, F>,
    DeriveError,
>)
    ensures
        match result {
            Ok(derived) => {
                &&& from_iter_error(*opts) is None
                &&& derived.ident == opts.ident
                &&& derived.defaults@ == field_defaults(opts.fields())
                &&& derived.consumers@ == match_field_consumers(opts.fields())
            },
            Err(error) => from_iter_error(*opts) == Some(error),
        },
        (exists|i: int| 0 <= i < opts.fields().len() && opts.fields()[i].flatten is Some)
            ==> result is Err,
{
    let fields = match &opts.data {
        Data::Enum => {
            return Err(DeriveError::Enum);
        },
        Data::Struct(fields) => fields,
    };
    proof {
        if exists|i: int| 0 <= i < fields@.len() && fields@[i].flatten is Some {
            let i = choose|i: int| 0 <= i < fields@.len() && fields@[i].flatten is Some;
            lemma_flattened_has_error(fields@, 0, i);
        }
    }
    let mut defaults: Vec<FieldDefault<'a>> = Vec::new();
    let mut at: usize = 0;
    while at < fields.len()
        invariant
            at <= fields.len(),
            opts.data == Data::Struct(*fields),
            defaults_error(fields@, 0) == defaults_error(fields@, at as int),
            forall|i: int| 0 <= i < at ==> (#[trigger] fields@[i]).ident is Some,
            defaults@.len() == at,
            forall|i: int| 0 <= i < at ==> defaults@[i] == field_default(&fields@[i]),
        decreases fields.len() - at,
    {
        let field = &fields[at];
        if field.ident.is_none() {
            return Err(DeriveError::UnnamedField);
        }
        let value = match &field.default {
            None => {
                return Err(DeriveError::MissingDefault);
            },
            Some(default_opts) => match &default_opts.value {
                Some(value) => DefaultExpr::Value(value),
                None => DefaultExpr::Default,
            },
        };
        let ty = match &field.ty {
            Type::Scalar(ty) => *ty,
            Type::Struct(_) => ScalarType::Bool,
        };
        defaults.push(
            FieldDefault { ident: field.get_ident().clone(), value, consumer: field.consumer(), ty },
        );
        at = at + 1;
    }
    let mut consumers: Vec<MatchFieldConsumer<F>> = Vec::new();
    let mut at: usize = 0;
    while at < fields.len()
        invariant
            at <= fields.len(),
            opts.data == Data::Struct(*fields),
            defaults_error(fields@, 0) is None,
            forall|i: int| 0 <= i < fields@.len() ==> (#[trigger] fields@[i]).ident is Some,
            consumers_error(fields@, 0) == consumers_error(fields@, at as int),
            consumers@.len() == at,
            forall|i: int| 0 <= i < at ==> consumers@[i] == match_field_consumer(&fields@[i]),
        decreases fields.len() - at,
    {
        let field = &fields[at];
        if field.flatten.is_some() {
            return Err(DeriveError::FlattenedField);
        }
        if let Type::Struct(_) = &field.ty {
            return Err(DeriveError::NotAScalar);
        }
        consumers.push(generate_match_field_consumer(field));
        at = at + 1;
    }
    assert(defaults@ =~= field_defaults(opts.fields()));
    assert(consumers@ =~= match_field_consumers(opts.fields()));
    Ok(FromIterImpl { ident: opts.ident.clone(), defaults, consumers })
}

/// What a field gets where the mapping has no entry for its key.
pub enum MissingHandler<'a> {
    /// The value that the declaration gives.
    Value(&'a Value),
    /// The default of the field's type.
    Default,
    /// Nothing: the decode fails, naming the key.
    MissingKey(String),
}

/// The part of one field in a derived [`crate::from_mapping::FromMapping`].
pub enum MappedField<'a, I, F> {
    /// The field is the nested record, built from the same mapping, seen
    /// through the prefix where there is one.
    Flattened { ident: String, prefix: Option<String>, ty: &'a Type<I, F> },
    /// The field is looked up under its key.
    Keyed {
        ident: String,
        key: String,
        missing: MissingHandler<'a>,
        consumer: ConsumerExpr,
        value: ValueExpr<F>,
        ty: ScalarType,
    },
}

/// A derived [`crate::from_mapping::FromMapping`]: the parts of the fields,
/// in the order in which the fields are declared.
pub struct FromMappingImpl<'a, I, F> {
    pub ident: String,
    pub fields: Vec<MappedField<'a, I, F>>,
}

/// What `field` gets where its key is missing: its declared default, the
/// default of its type, or nothing.
pub open spec fn missing_handler<'a, I, F>(field: &'a Field<I, F>) -> MissingHandler<'a> {
    match field.default {
        Some(default_opts) => match default_opts.value {
            Some(value) => MissingHandler::Value(&value),
            None => MissingHandler::Default,
        },
        None => MissingHandler::MissingKey(field.key()),
    }
}

/// The part of `field` in the derived conversion.
pub open spec fn mapped_field<'a, I, F>(field: &'a Field<I, F>) -> MappedField<'a, I, F> {
    match field.flatten {
        Some(flatten) => MappedField::Flattened {
            ident: field.ident->0,
            prefix: flatten.prefix,
            ty: &field.ty,
        },
        None => MappedField::Keyed {
            ident: field.ident->0,
            key: field.key(),
            missing: missing_handler(field),
            consumer: field.consumer_expr(),
            value: field.wrapped(ValueExpr::FromStr),
            ty: scalar_type(field),
        },
    }
}

/// Why no [`crate::from_mapping::FromMapping`] can be derived with `field`,
/// if so: it has no name; it is flattened and has a default; its
/// flattening and its type do not go together; or the record that it
/// flattens has such a field itself.
pub open spec fn field_mapping_error<I, F>(field: Field<I, F>) -> Option<DeriveError>
    decreases field, 0nat,
{
    if field.ident is None {
        Some(DeriveError::UnnamedField)
    } else if field.flatten is Some && field.default is Some {
        Some(DeriveError::FlattenWithDefault)
    } else {
        match field.ty {
            Type::Scalar(_) => if field.flatten is Some {
                Some(DeriveError::NotAStruct)
            } else {
                None
            },
            Type::Struct(nested) => if field.flatten is Some {
                from_mapping_error(*nested)
            } else {
                Some(DeriveError::NotAScalar)
            },
        }
    }
}

/// The error of the first field, from `from` on, that has one.
pub open spec fn fields_mapping_error<I, F>(fields: Seq<Field<I, F>>, from: int) -> Option<
    DeriveError,
>
    decreases fields, fields.len() - from,
{
    if from < 0 || from >= fields.len() {
        None
    } else {
        match field_mapping_error(fields[from]) {
            Some(error) => Some(error),
            None => fields_mapping_error(fields, from + 1),
        }
    }
}

/// Why no [`crate::from_mapping::FromMapping`] can be derived for `opts`,
/// if so: it declares an enum, or else the error of its first field that
/// has one.
pub open spec fn from_mapping_error<I, F>(opts: MacroOpts<I, F>) -> Option<DeriveError>
    decreases opts, 0nat,
{
    match opts.data {
        Data::Enum => Some(DeriveError::Enum),
        Data::Struct(fields) => fields_mapping_error(fields@, 0),
    }
}

/// Where no field has an error from `from` on, none of those fields has one.
pub proof fn lemma_no_mapping_error<I, F>(fields: Seq<Field<I, F>>, from: int, at: int)
    requires
        0 <= from <= at < fields.len(),
        fields_mapping_error(fields, from) is None,
    ensures
        field_mapping_error(fields[at]) is None,
    decreases at - from,
{
    reveal_with_fuel(fields_mapping_error, 2);
    if from < at {
        lemma_no_mapping_error(fields, from + 1, at);
    }
}

/// Whether a record of type `ty` can be built from a mapping.
pub open spec fn mapped_type_wf<I, F>(ty: Type<I, F>) -> bool {
    ty matches Type::Struct(nested) ==> from_mapping_error(*nested) is None
}

impl<'a, I, F> MappedField<'a, I, F> {
    /// Whether the field can be built: a record that it holds is one for
    /// which the conversion can be derived.
    pub open spec fn wf(&self) -> bool {
        match self {
            MappedField::Flattened { ty, .. } => mapped_type_wf(**ty),
            MappedField::Keyed { .. } => true,
        }
    }
}

impl<'a, I, F> FromMappingImpl<'a, I, F> {
    /// Whether every field can be built.
    pub open spec fn wf(&self) -> bool {
        forall|i: int| 0 <= i < self.fields@.len() ==> (#[trigger] self.fields@[i]).wf()
    }
}

/// The part of each field.
pub open spec fn mapped_fields<'a, I, F>(fields: Seq<Field<I, F>>) -> Seq<MappedField<'a, I, F>> {
    Seq::new(fields.len(), |i: int| mapped_field(&fields[i]))
}

/// The part of `field` in the derived conversion.
pub fn generate_mapped_field<'a, I, F: Copy>(field: &'a Field<I, F>) -> (mapped: MappedField<
    'a,
    I,
    F,
>)
    requires
        field.ident is Some,
        field.flatten is None || field.default is None,
    ensures
        mapped == mapped_field(field),
{
    let ident = field.get_ident();
    if let Some(flatten) = &field.flatten {
        let prefix = match &flatten.prefix {
            Some(prefix) => Some(prefix.clone()),
            None => None,
        };
        MappedField::Flattened { ident: ident.clone(), prefix, ty: &field.ty }
    } else {
        let key = field.get_key();
        let missing = if let Some(default_opts) = &field.default {
            if let Some(value) = &default_opts.value {
                MissingHandler::Value(value)
            } else {
                MissingHandler::Default
            }
        } else {
            MissingHandler::MissingKey(key.clone())
        };
        let consumer = field.consumer();
        let value = field.wrap_from_repr_with(ValueExpr::FromStr);
        let ty = match &field.ty {
            Type::Scalar(ty) => *ty,
            Type::Struct(_) => ScalarType::Bool,
        };
        MappedField::Keyed { ident: ident.clone(), key, missing, consumer, value, ty }
    }
}

/// Derives [`crate::from_mapping::FromMapping`].
///
/// It is derived for a struct whose fields have names, where no flattened
/// field has a default, each flattened field holds a record for which it
/// can be derived, and no other field holds a record. Otherwise the first
/// thing in the way is reported.
pub fn derive_from_mapping<'a, I, F: Copy>(opts: &'a MacroOpts<I, F>) -> (result: Result<
    FromMappingImpl<'a, I, F>,
    DeriveError,
>)
    ensures
        match result {
            Ok(derived) => {
                &&& from_mapping_error(*opts) is None
                &&& derived.ident == opts.ident
                &&& derived.fields@ == mapped_fields(opts.fields())
                &&& derived.wf()
            },
            Err(error) => from_mapping_error(*opts) == Some(error),
        },
    decreases opts,
{
    let fields = match &opts.data {
        Data::Enum => {
            return Err(DeriveError::Enum);
        },
        Data::Struct(fields) => fields,
    };
    let mut mapped: Vec<MappedField<'a, I, F>> = Vec::new();
    let mut at: usize = 0;
    while at < fields.len()
        invariant
            at <= fields.len(),
            opts.data == Data::Struct(*fields),
            fields_mapping_error(fields@, 0) == fields_mapping_error(fields@, at as int),
            mapped@.len() == at,
            forall|i: int| 0 <= i < at ==> mapped@[i] == mapped_field(&fields@[i]),
        decreases fields.len() - at,
    {
        let field = &fields[at];
        proof {
            reveal_with_fuel(fields_mapping_error, 2);
            reveal_with_fuel(field_mapping_error, 2);
            reveal_with_fuel(from_mapping_error, 2);
        }
        if field.ident.is_none() {
            return Err(DeriveError::UnnamedField);
        }
        if field.flatten.is_some() && field.default.is_some() {
            return Err(DeriveError::FlattenWithDefault);
        }
        match &field.ty {
            Type::Scalar(_) => {
                if field.flatten.is_some() {
                    return Err(DeriveError::NotAStruct);
                }
            },
            Type::Struct(nested) => {
                if field.flatten.is_none() {
                    return Err(DeriveError::NotAScalar);
                }
                proof {
                    assert(decreases_to!(opts => opts.data));
                    assert(decreases_to!(opts.data => opts.data->Struct_0));
                    assert(decreases_to!(*fields => fields@[at as int]));
                    assert(decreases_to!(fields@[at as int] => fields@[at as int].ty));
                    assert(decreases_to!(fields@[at as int].ty => fields@[at as int].ty->Struct_0));
                }
                match derive_from_mapping(&**nested) {
                    Ok(_) => {},
                    Err(error) => {
                        return Err(error);
                    },
                }
            },
        }
        mapped.push(generate_mapped_field(field));
        at = at + 1;
    }
    assert(mapped@ =~= mapped_fields(opts.fields()));
    proof {
        assert forall|i: int| 0 <= i < mapped@.len() implies (#[trigger] mapped@[i]).wf() by {
            lemma_no_mapping_error(fields@, 0, i);
            reveal_with_fuel(field_mapping_error, 2);
        }
    }
    Ok(FromMappingImpl { ident: opts.ident.clone(), fields: mapped })
}

} // verus!

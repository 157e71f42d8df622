//! What a derived [`crate::from_mapping::FromMapping`] makes of a mapping.

use vstd::prelude::*;
use crate::decoder::{default_of, evaluate, evaluated, init, initial, record_view};
use crate::derive::{
    field_mapping_error, fields_mapping_error, from_mapping_error, generate_mapped_field,
    lemma_no_mapping_error, mapped_field, mapped_fields, FromMappingImpl, MappedField,
    MissingHandler,
};
use crate::error::{Error, ErrorView};
use crate::field::{ConsumerExpr, Field, Type, ValueExpr};
use crate::from_mapping::{prefixed_entries, Mapping, PrefixedMapping};
use crate::opts::{Data, MacroOpts};
use crate::scalar::ScalarType;
use crate::text::join;
use crate::transform::FromReprWith;
use crate::value::{lemma_views, views, Value, ValueView};

verus! {

/// The mathematical content of a decoded field, or of the error.
pub open spec fn value_result_view(result: Result<Value, Error>) -> Result<ValueView, ErrorView> {
    match result {
        Ok(value) => Ok(value@),
        Err(error) => Err(error@),
    }
}

/// What a field gets whose key is missing: its declared default, the
/// default of its type, or the error that names the key.
pub open spec fn missing_value(missing: MissingHandler, consumer: ConsumerExpr, ty: ScalarType) -> Result<
    ValueView,
    ErrorView,
> {
    match missing {
        MissingHandler::Value(value) => Ok(value@),
        MissingHandler::Default => Ok(default_of(consumer, ty)),
        MissingHandler::MissingKey(key) => Err(ErrorView::MissingKey(key@)),
    }
}

/// The field that is looked up under `key`: where the key is there, what
/// its value alone gives, or the value's error; where it is missing, what
/// the missing handler says.
pub open spec fn keyed_value<F: FromReprWith>(
    key: Seq<char>,
    missing: MissingHandler,
    consumer: ConsumerExpr,
    value: ValueExpr<F>,
    ty: ScalarType,
    entries: Map<Seq<char>, Seq<char>>,
) -> Result<ValueView, ErrorView> {
    if entries.contains_key(key) {
        match evaluated(value, ty, entries[key]) {
            Ok(scalar) => Ok(initial(consumer, scalar)),
            Err(error) => Err(error),
        }
    } else {
        missing_value(missing, consumer, ty)
    }
}

/// The entries as a nested record sees them: through the prefix, where
/// there is one.
pub open spec fn nested_entries(entries: Map<Seq<char>, Seq<char>>, prefix: Option<String>) -> Map<
    Seq<char>,
    Seq<char>,
> {
    match prefix {
        Some(prefix) => prefixed_entries(entries, prefix@),
        None => entries,
    }
}

/// The record of type `ty` that the entries give, as the value of a
/// flattened field.
pub open spec fn flattened_value<I, F: FromReprWith>(
    ty: Type<I, F>,
    prefix: Option<String>,
    entries: Map<Seq<char>, Seq<char>>,
) -> Result<ValueView, ErrorView>
    decreases ty, ty, 0nat,
{
    match ty {
        Type::Struct(nested) => match struct_decoded(*nested, nested_entries(entries, prefix)) {
            Ok(fields) => Ok(ValueView::Nested(fields)),
            Err(error) => Err(error),
        },
        Type::Scalar(_) => Ok(ValueView::Nested(Seq::empty())),
    }
}

/// The value of `field` that the entries give.
pub open spec fn field_decoded<I, F: FromReprWith>(
    field: Field<I, F>,
    entries: Map<Seq<char>, Seq<char>>,
) -> Result<ValueView, ErrorView>
    decreases field, field, 0nat,
{
    match field.flatten {
        Some(flatten) => flattened_value(field.ty, flatten.prefix, entries),
        None => keyed_value(
            field.key()@,
            crate::derive::missing_handler(&field),
            field.consumer_expr(),
            field.wrapped(ValueExpr::FromStr),
            crate::derive::scalar_type(&field),
            entries,
        ),
    }
}

/// The values of the first `count` fields, or the error of the first of
/// them that has one.
pub open spec fn fields_decoded<I, F: FromReprWith>(
    fields: Seq<Field<I, F>>,
    entries: Map<Seq<char>, Seq<char>>,
    count: nat,
) -> Result<Seq<ValueView>, ErrorView>
    decreases fields, fields, count,
{
    if count == 0 || count > fields.len() {
        Ok(Seq::empty())
    } else {
        match fields_decoded(fields, entries, (count - 1) as nat) {
            Err(error) => Err(error),
            Ok(values) => match field_decoded(fields[count - 1], entries) {
                Err(error) => Err(error),
                Ok(value) => Ok(values.push(value)),
            },
        }
    }
}

/// The record declared by `opts` that the entries give: each field in the
/// order of the declaration, the first error ending the work.
pub open spec fn struct_decoded<I, F: FromReprWith>(
    opts: MacroOpts<I, F>,
    entries: Map<Seq<char>, Seq<char>>,
) -> Result<Seq<ValueView>, ErrorView>
    decreases opts, opts, 0nat,
{
    match opts.data {
        Data::Enum => Ok(Seq::empty()),
        Data::Struct(fields) => fields_decoded(fields@, entries, fields@.len()),
    }
}

/// The value of the field with the part `mapped` that the entries give.
pub open spec fn mapped_value<I, F: FromReprWith>(
    mapped: MappedField<I, F>,
    entries: Map<Seq<char>, Seq<char>>,
) -> Result<ValueView, ErrorView> {
    match mapped {
        MappedField::Flattened { prefix, ty, .. } => flattened_value(*ty, prefix, entries),
        MappedField::Keyed { key, missing, consumer, value, ty, .. } => keyed_value(
            key@,
            missing,
            consumer,
            value,
            ty,
            entries,
        ),
    }
}

/// The values of the first `count` parts, or the error of the first of
/// them that has one.
pub open spec fn mapped_values<I, F: FromReprWith>(
    mapped: Seq<MappedField<I, F>>,
    entries: Map<Seq<char>, Seq<char>>,
    count: nat,
) -> Result<Seq<ValueView>, ErrorView>
    decreases count,
{
    if count == 0 || count > mapped.len() {
        Ok(Seq::empty())
    } else {
        match mapped_values(mapped, entries, (count - 1) as nat) {
            Err(error) => Err(error),
            Ok(values) => match mapped_value(mapped[count - 1], entries) {
                Err(error) => Err(error),
                Ok(value) => Ok(values.push(value)),
            },
        }
    }
}

/// The parts of the fields give the values of the fields.
pub proof fn lemma_mapped_values<I, F: FromReprWith>(
    fields: Seq<Field<I, F>>,
    entries: Map<Seq<char>, Seq<char>>,
    count: nat,
)
    ensures
        mapped_values(mapped_fields(fields), entries, count) == fields_decoded(
            fields,
            entries,
            count,
        ),
    decreases count,
{
    if count == 0 || count > fields.len() {
    } else {
        lemma_mapped_values(fields, entries, (count - 1) as nat);
        assert(mapped_fields(fields)[count - 1] == mapped_field(&fields[count - 1]));
        assert(mapped_value(mapped_field(&fields[count - 1]), entries) == field_decoded(
            fields[count - 1],
            entries,
        ));
    }
}

/// Seen through one prefix and then another, a mapping is seen through the
/// two in a row; seen through the empty prefix, it is itself.
pub proof fn lemma_prefixed_entries(
    entries: Map<Seq<char>, Seq<char>>,
    outer: Seq<char>,
    inner: Seq<char>,
)
    ensures
        prefixed_entries(prefixed_entries(entries, outer), inner) == prefixed_entries(
            entries,
            outer + inner,
        ),
        prefixed_entries(entries, Seq::empty()) == entries,
{
    assert forall|key: Seq<char>| (outer + inner) + key == outer + (inner + key) by {
        assert((outer + inner) + key =~= outer + (inner + key));
    }
    assert forall|key: Seq<char>| Seq::<char>::empty() + key == key by {
        assert(Seq::<char>::empty() + key =~= key);
    }
    assert(prefixed_entries(prefixed_entries(entries, outer), inner) =~= prefixed_entries(
        entries,
        outer + inner,
    ));
    assert(prefixed_entries(entries, Seq::empty()) =~= entries);
}

/// Makes the default of a field's type.
pub fn make_default(consumer: &ConsumerExpr, ty: ScalarType) -> (value: Value)
    ensures
        value@ == default_of(*consumer, ty),
{
    match consumer {
        ConsumerExpr::Scalar => Value::Scalar(ty.default_value()),
        ConsumerExpr::Optional(_) => Value::Optional(None),
        ConsumerExpr::Collection(_) => {
            let items: Vec<Value> = Vec::new();
            proof {
                lemma_views(items);
                assert(views(items@) =~= Seq::empty());
            }
            Value::Collection(items)
        },
    }
}

/// Looks the field up under `key` and makes its value.
pub fn decode_keyed<M: Mapping, F: FromReprWith>(
    key: &str,
    missing: &MissingHandler,
    consumer: &ConsumerExpr,
    value: &ValueExpr<F>,
    ty: ScalarType,
    mapping: &M,
) -> (result: Result<Value, Error>)
    ensures
        value_result_view(result) == keyed_value(
            key@,
            *missing,
            *consumer,
            *value,
            ty,
            mapping.entries(),
        ),
{
    match mapping.get_value(key) {
        Some(text) => match evaluate(value, ty, text) {
            Ok(scalar) => Ok(init(consumer, scalar)),
            Err(error) => Err(error),
        },
        None => match missing {
            MissingHandler::Value(value) => Ok((*value).clone()),
            MissingHandler::Default => Ok(make_default(consumer, ty)),
            MissingHandler::MissingKey(key) => Err(Error::MissingKey(key.clone())),
        },
    }
}

/// Builds the record of type `ty` from the mapping as it is seen through
/// `seen`, and through `prefix` behind it where there is one.
pub fn decode_flattened<M: Mapping, I, F: FromReprWith>(
    ty: &Type<I, F>,
    prefix: &Option<String>,
    mapping: &M,
    seen: &str,
) -> (result: Result<Value, Error>)
    requires
        crate::derive::mapped_type_wf(*ty),
    ensures
        value_result_view(result) == flattened_value(
            *ty,
            *prefix,
            prefixed_entries(mapping.entries(), seen@),
        ),
    decreases ty, ty, 0nat,
{
    match ty {
        Type::Struct(nested) => {
            let decoded = match prefix {
                Some(prefix) => {
                    let full = join(seen, prefix.as_str());
                    proof {
                        lemma_prefixed_entries(mapping.entries(), seen@, prefix@);
                    }
                    struct_from_mapping(&**nested, mapping, full.as_str())
                },
                None => struct_from_mapping(&**nested, mapping, seen),
            };
            match decoded {
                Ok(fields) => {
                    proof {
                        lemma_views(fields);
                    }
                    Ok(Value::Nested(fields))
                },
                Err(error) => Err(error),
            }
        },
        Type::Scalar(_) => {
            let fields: Vec<Value> = Vec::new();
            proof {
                lemma_views(fields);
                assert(views(fields@) =~= Seq::empty());
            }
            Ok(Value::Nested(fields))
        },
    }
}

/// Builds the record declared by `opts` from the mapping as it is seen
/// through the prefix `seen`.
pub fn struct_from_mapping<M: Mapping, I, F: FromReprWith>(
    opts: &MacroOpts<I, F>,
    mapping: &M,
    seen: &str,
) -> (result: Result<Vec<Value>, Error>)
    requires
        from_mapping_error(*opts) is None,
    ensures
        record_view(result) == struct_decoded(*opts, prefixed_entries(mapping.entries(), seen@)),
    decreases opts, opts, 0nat,
{
    let mut this: Vec<Value> = Vec::new();
    assert(views(this@) =~= Seq::empty());
    let fields = match &opts.data {
        Data::Enum => {
            return Ok(this);
        },
        Data::Struct(fields) => fields,
    };
    let ghost entries = prefixed_entries(mapping.entries(), seen@);
    let mut at: usize = 0;
    while at < fields.len()
        invariant
            at <= fields.len(),
            opts.data == Data::Struct(*fields),
            fields_mapping_error(fields@, 0) is None,
            entries == prefixed_entries(mapping.entries(), seen@),
            fields_decoded(fields@, entries, at as nat) == Ok::<Seq<ValueView>, ErrorView>(
                views(this@),
            ),
        decreases fields.len() - at,
    {
        let field = &fields[at];
        proof {
            lemma_no_mapping_error(fields@, 0, at as int);
            reveal_with_fuel(field_mapping_error, 2);
            assert(decreases_to!(opts => opts.data));
            assert(decreases_to!(opts.data => opts.data->Struct_0));
            assert(decreases_to!(*fields => fields@[at as int]));
            assert(decreases_to!(fields@[at as int] => fields@[at as int].ty));
        }
        let decoded = match generate_mapped_field(field) {
            MappedField::Flattened { ident, prefix, ty } => decode_flattened(
                ty,
                &prefix,
                mapping,
                seen,
            ),
            MappedField::Keyed { ident, key, missing, consumer, value, ty } => {
                let prefixed = PrefixedMapping(mapping, seen);
                decode_keyed(key.as_str(), &missing, &consumer, &value, ty, &prefixed)
            },
        };
        proof {
            assert(value_result_view(decoded) == field_decoded(fields@[at as int], entries));
        }
        match decoded {
            Ok(value) => {
                let ghost before = views(this@);
                this.push(value);
                assert(views(this@) =~= before.push(value@));
            },
            Err(error) => {
                proof {
                    lemma_first_error(fields@, entries, at as nat + 1, fields@.len());
                }
                return Err(error);
            },
        }
        at = at + 1;
    }
    Ok(this)
}

/// An error among the first fields is the error of all of them.
pub proof fn lemma_first_error<I, F: FromReprWith>(
    fields: Seq<Field<I, F>>,
    entries: Map<Seq<char>, Seq<char>>,
    count: nat,
    all: nat,
)
    requires
        count <= all <= fields.len(),
        fields_decoded(fields, entries, count) is Err,
    ensures
        fields_decoded(fields, entries, all) == fields_decoded(fields, entries, count),
    decreases all - count,
{
    if count < all {
        lemma_first_error(fields, entries, count, (all - 1) as nat);
    }
}

/// An error among the first parts is the error of all of them.
pub proof fn lemma_first_mapped_error<I, F: FromReprWith>(
    mapped: Seq<MappedField<I, F>>,
    entries: Map<Seq<char>, Seq<char>>,
    count: nat,
    all: nat,
)
    requires
        count <= all <= mapped.len(),
        mapped_values(mapped, entries, count) is Err,
    ensures
        mapped_values(mapped, entries, all) == mapped_values(mapped, entries, count),
    decreases all - count,
{
    if count < all {
        lemma_first_mapped_error(mapped, entries, count, (all - 1) as nat);
    }
}

impl<'a, I, F: FromReprWith> FromMappingImpl<'a, I, F> {
    /// The record that the entries give: each field in the order of the
    /// declaration. A field's key that is there is read; one that is
    /// missing gives the field's default, or `MissingKey` where it has
    /// none. The first error ends the work.
    pub open spec fn decoded(&self, entries: Map<Seq<char>, Seq<char>>) -> Result<
        Seq<ValueView>,
        ErrorView,
    > {
        mapped_values(self.fields@, entries, self.fields@.len())
    }

    /// Builds the record from the mapping.
    pub fn from_mapping<M: Mapping>(&self, mapping: &M) -> (result: Result<Vec<Value>, Error>)
        requires
            self.wf(),
        ensures
            record_view(result) == self.decoded(mapping.entries()),
    {
        let mut this: Vec<Value> = Vec::new();
        assert(views(this@) =~= Seq::empty());
        let ghost entries = mapping.entries();
        proof {
            lemma_prefixed_entries(entries, Seq::empty(), Seq::empty());
            reveal_strlit("");
            assert(""@ =~= Seq::<char>::empty());
        }
        let mut at: usize = 0;
        while at < self.fields.len()
            invariant
                at <= self.fields.len(),
                self.wf(),
                entries == mapping.entries(),
                entries == prefixed_entries(mapping.entries(), ""@),
                mapped_values(self.fields@, entries, at as nat) == Ok::<Seq<ValueView>, ErrorView>(
                    views(this@),
                ),
            decreases self.fields.len() - at,
        {
            assert(self.fields@[at as int].wf());
            let decoded = match &self.fields[at] {
                MappedField::Flattened { ident, prefix, ty } => decode_flattened(
                    *ty,
                    prefix,
                    mapping,
                    "",
                ),
                MappedField::Keyed { ident, key, missing, consumer, value, ty } => decode_keyed(
                    key.as_str(),
                    missing,
                    consumer,
                    value,
                    *ty,
                    mapping,
                ),
            };
            match decoded {
                Ok(value) => {
                    let ghost before = views(this@);
                    this.push(value);
                    assert(views(this@) =~= before.push(value@));
                },
                Err(error) => {
                    proof {
                        lemma_first_mapped_error(
                            self.fields@,
                            entries,
                            at as nat + 1,
                            self.fields@.len(),
                        );
                    }
                    return Err(error);
                },
            }
            at = at + 1;
        }
        Ok(this)
    }
}

/// What is derived for a declaration builds the declaration's records.
pub proof fn lemma_derived_decoded<I, F: FromReprWith>(
    derived: FromMappingImpl<I, F>,
    opts: MacroOpts<I, F>,
    entries: Map<Seq<char>, Seq<char>>,
)
    requires
        opts.data is Struct,
        derived.fields@ == mapped_fields(opts.fields()),
    ensures
        derived.decoded(entries) == struct_decoded(opts, entries),
{
    lemma_mapped_values(opts.fields(), entries, opts.fields().len());
}

} // verus!

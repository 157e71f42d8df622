//! What a derived [`crate::into_vec::IntoVec`] makes of a record.

use vstd::prelude::*;
use crate::derive::{
    field_into_vec_error, field_producer, field_producers, fields_into_vec_error,
    generate_field_producer, into_vec_error, lemma_no_field_error, producer_expr, type_wf,
    FieldProducer, IntoVecImpl, ProducerExpr,
};
use crate::field::{Field, Type};
use crate::opts::{Data, MacroOpts};
use crate::producer::{prefix_keys, prefixed};
use crate::to_repr::ToRepr;
use crate::transform::IntoReprWith;
use crate::value::{views, Value, ValueView};

verus! {

/// The pairs that `producer` makes of `value` under `key`, for a field of
/// type `ty`.
///
/// A scalar gives one pair. An absent value gives none, a present one what
/// the inner producer gives. A sequence gives what the inner producer gives
/// for each element, in their order. A flattened record gives its own
/// pairs, with the prefix in front of each key where there is one.
pub open spec fn produced<I: IntoReprWith, F>(
    producer: ProducerExpr<I>,
    ty: Type<I, F>,
    key: Seq<char>,
    value: ValueView,
) -> Seq<(Seq<char>, Seq<char>)>
    decreases ty, producer, 0nat,
{
    match producer {
        ProducerExpr::Scalar => match value {
            ValueView::Scalar(scalar) => seq![(key, scalar.text())],
            _ => Seq::empty(),
        },
        ProducerExpr::Flattening => match ty {
            Type::Struct(nested) => match value {
                ValueView::Nested(fields) => struct_pairs(*nested, fields),
                _ => Seq::empty(),
            },
            _ => Seq::empty(),
        },
        ProducerExpr::PrefixedFlattening(prefix) => match ty {
            Type::Struct(nested) => match value {
                ValueView::Nested(fields) => prefixed(prefix@, struct_pairs(*nested, fields)),
                _ => Seq::empty(),
            },
            _ => Seq::empty(),
        },
        ProducerExpr::Wrapped(inner, with) => produced(*inner, ty, key, with.applied(value)),
        ProducerExpr::Optional(inner) => match value {
            ValueView::Optional(Some(present)) => produced(*inner, ty, key, *present),
            _ => Seq::empty(),
        },
        ProducerExpr::Collection(inner) => match value {
            ValueView::Collection(items) => produced_each(*inner, ty, key, items),
            _ => Seq::empty(),
        },
    }
}

/// What `producer` makes of each of `items`, one after the other.
pub open spec fn produced_each<I: IntoReprWith, F>(
    producer: ProducerExpr<I>,
    ty: Type<I, F>,
    key: Seq<char>,
    items: Seq<ValueView>,
) -> Seq<(Seq<char>, Seq<char>)>
    decreases ty, producer, items.len() + 1,
{
    if items.len() == 0 {
        Seq::empty()
    } else {
        produced_each(producer, ty, key, items.drop_last()) + produced(
            producer,
            ty,
            key,
            items.last(),
        )
    }
}

/// The pairs of the field `field` that holds `value`.
pub open spec fn field_pairs<I: IntoReprWith, F>(field: Field<I, F>, value: ValueView) -> Seq<
    (Seq<char>, Seq<char>),
>
    decreases field, field, 0nat,
{
    produced(producer_expr(&field), field.ty, field.key()@, value)
}

/// The pairs of the first `count` fields, in the order of the fields.
pub open spec fn fields_pairs<I: IntoReprWith, F>(
    fields: Seq<Field<I, F>>,
    this: Seq<ValueView>,
    count: nat,
) -> Seq<(Seq<char>, Seq<char>)>
    decreases fields, fields, count,
{
    if count == 0 || count > fields.len() {
        Seq::empty()
    } else {
        fields_pairs(fields, this, (count - 1) as nat) + field_pairs(
            fields[count - 1],
            this[count - 1],
        )
    }
}

/// The pairs of the record `this` that is declared by `opts`: those of its
/// fields, in the order in which the fields are declared. A field for which
/// `this` holds no value has no pairs.
pub open spec fn struct_pairs<I: IntoReprWith, F>(opts: MacroOpts<I, F>, this: Seq<ValueView>) -> Seq<
    (Seq<char>, Seq<char>),
>
    decreases opts, opts, 0nat,
{
    match opts.data {
        Data::Enum => Seq::empty(),
        Data::Struct(fields) => fields_pairs(
            fields@,
            this,
            if this.len() < fields@.len() {
                this.len()
            } else {
                fields@.len()
            },
        ),
    }
}

/// The pairs of the first `count` producers, in their order.
pub open spec fn producers_pairs<I: IntoReprWith, F>(
    producers: Seq<FieldProducer<I, F>>,
    this: Seq<ValueView>,
    count: nat,
) -> Seq<(Seq<char>, Seq<char>)>
    decreases count,
{
    if count == 0 || count > producers.len() {
        Seq::empty()
    } else {
        producers_pairs(producers, this, (count - 1) as nat) + produced(
            producers[count - 1].producer,
            *producers[count - 1].ty,
            producers[count - 1].key@,
            this[count - 1],
        )
    }
}

/// The producers of the fields make the pairs of the fields.
pub proof fn lemma_producers_pairs<I: IntoReprWith, F>(
    fields: Seq<Field<I, F>>,
    this: Seq<ValueView>,
    count: nat,
)
    ensures
        producers_pairs(field_producers(fields), this, count) == fields_pairs(fields, this, count),
    decreases count,
{
    if count == 0 || count > fields.len() {
    } else {
        lemma_producers_pairs(fields, this, (count - 1) as nat);
        assert(field_producers(fields)[count - 1] == field_producer(
            &fields[count - 1],
        ));
        assert(field_pairs(fields[count - 1], this[count - 1]) == produced(
            producer_expr(&fields[count - 1]),
            fields[count - 1].ty,
            fields[count - 1].key()@,
            this[count - 1],
        ));
    }
}

/// Appends `more` to `pairs`.
fn extend(pairs: &mut Vec<(String, String)>, more: Vec<(String, String)>)
    ensures
        final(pairs).deep_view() == old(pairs).deep_view() + more.deep_view(),
{
    let mut more = more;
    let ghost before = pairs.deep_view();
    let ghost added = more.deep_view();
    pairs.append(&mut more);
    assert(pairs.deep_view() =~= before + added);
}

/// Makes the pairs of `value` under `key`, for a field of type `ty`.
pub fn produce<I: IntoReprWith, F>(
    producer: &ProducerExpr<I>,
    ty: &Type<I, F>,
    key: &str,
    value: &Value,
) -> (pairs: Vec<(String, String)>)
    requires
        type_wf(*ty),
    ensures
        pairs.deep_view() == produced(*producer, *ty, key@, value@),
    decreases ty, producer, 0nat,
{
    let mut pairs: Vec<(String, String)> = Vec::new();
    assert(pairs.deep_view() =~= Seq::empty());
    match producer {
        ProducerExpr::Scalar => {
            if let Value::Scalar(scalar) = value {
                pairs.push((String::from_str(key), scalar.to_repr()));
                assert(pairs.deep_view() =~= seq![(key@, scalar@.text())]);
            }
        },
        ProducerExpr::Flattening => {
            if let Type::Struct(nested) = ty {
                if let Value::Nested(fields) = value {
                    proof {
                        crate::value::lemma_views(*fields);
                    }
                    pairs = struct_into_vec(&**nested, fields);
                }
            }
        },
        ProducerExpr::PrefixedFlattening(prefix) => {
            if let Type::Struct(nested) = ty {
                if let Value::Nested(fields) = value {
                    proof {
                        crate::value::lemma_views(*fields);
                    }
                    pairs = prefix_keys(prefix.as_str(), struct_into_vec(&**nested, fields));
                }
            }
        },
        ProducerExpr::Wrapped(inner, with) => {
            let mid = with.apply(value);
            pairs = produce(&**inner, ty, key, &mid);
        },
        ProducerExpr::Optional(inner) => {
            if let Value::Optional(Some(present)) = value {
                pairs = produce(&**inner, ty, key, &**present);
            }
        },
        ProducerExpr::Collection(inner) => {
            if let Value::Collection(items) = value {
                proof {
                    crate::value::lemma_views(*items);
                }
                let mut at: usize = 0;
                while at < items.len()
                    invariant
                        at <= items.len(),
                        type_wf(*ty),
                        *producer == ProducerExpr::Collection(*inner),
                        pairs.deep_view() == produced_each(
                            **inner,
                            *ty,
                            key@,
                            views(items@).take(at as int),
                        ),
                    decreases items.len() - at,
                {
                    assert(decreases_to!(*producer => producer->Collection_0));
                    let part = produce(&**inner, ty, key, &items[at]);
                    proof {
                        let all = views(items@);
                        assert(all.take(at as int + 1).drop_last() =~= all.take(at as int));
                        assert(all.take(at as int + 1).last() == items@[at as int]@);
                    }
                    extend(&mut pairs, part);
                    at = at + 1;
                }
                assert(views(items@).take(at as int) =~= views(items@));
            }
        },
    }
    pairs
}

/// Makes the pairs of the record `this` that is declared by `opts`.
pub fn struct_into_vec<I: IntoReprWith, F>(opts: &MacroOpts<I, F>, this: &Vec<Value>) -> (pairs: Vec<
    (String, String),
>)
    requires
        into_vec_error(*opts) is None,
    ensures
        pairs.deep_view() == struct_pairs(*opts, views(this@)),
    decreases opts, opts, 0nat,
{
    let mut pairs: Vec<(String, String)> = Vec::new();
    assert(pairs.deep_view() =~= Seq::empty());
    let fields = match &opts.data {
        Data::Enum => {
            return pairs;
        },
        Data::Struct(fields) => fields,
    };
    let mut at: usize = 0;
    while at < fields.len() && at < this.len()
        invariant
            at <= fields.len(),
            at <= this.len(),
            opts.data == Data::Struct(*fields),
            fields_into_vec_error(fields@, 0) is None,
            pairs.deep_view() == fields_pairs(fields@, views(this@), at as nat),
        decreases fields.len() - at,
    {
        let field = &fields[at];
        proof {
            lemma_no_field_error(fields@, 0, at as int);
            reveal_with_fuel(field_into_vec_error, 2);
            assert(field_pairs(fields@[at as int], views(this@)[at as int]) == produced(
                producer_expr(&fields@[at as int]),
                fields@[at as int].ty,
                fields@[at as int].key()@,
                this@[at as int]@,
            ));
            assert(decreases_to!(opts => opts.data));
            assert(decreases_to!(opts.data => opts.data->Struct_0));
            assert(decreases_to!(*fields => fields@[at as int]));
            assert(decreases_to!(fields@[at as int] => fields@[at as int].ty));
        }
        let made = generate_field_producer(field);
        let part = produce(&made.producer, &field.ty, made.key.as_str(), &this[at]);
        extend(&mut pairs, part);
        at = at + 1;
    }
    pairs
}

impl<'a, I: IntoReprWith, F> IntoVecImpl<'a, I, F> {
    /// The pairs of the record `this`: those of its fields, in the order in
    /// which the fields are declared. A field for which `this` holds no
    /// value has no pairs.
    pub open spec fn pairs(&self, this: Seq<ValueView>) -> Seq<(Seq<char>, Seq<char>)> {
        producers_pairs(
            self.producers@,
            this,
            if this.len() < self.producers@.len() {
                this.len()
            } else {
                self.producers@.len()
            },
        )
    }

    /// Turns the record `this` into its pairs.
    pub fn into_iter(&self, this: &Vec<Value>) -> (pairs: Vec<(String, String)>)
        requires
            self.wf(),
        ensures
            pairs.deep_view() == self.pairs(views(this@)),
    {
        let mut pairs: Vec<(String, String)> = Vec::new();
        assert(pairs.deep_view() =~= Seq::empty());
        let mut at: usize = 0;
        while at < self.producers.len() && at < this.len()
            invariant
                at <= self.producers.len(),
                at <= this.len(),
                self.wf(),
                pairs.deep_view() == producers_pairs(self.producers@, views(this@), at as nat),
            decreases self.producers.len() - at,
        {
            let producer = &self.producers[at];
            let part = produce(&producer.producer, producer.ty, producer.key.as_str(), &this[at]);
            extend(&mut pairs, part);
            at = at + 1;
        }
        pairs
    }

    /// Turns the record `this` into its pairs.
    pub fn into_vec(&self, this: &Vec<Value>) -> (pairs: Vec<(String, String)>)
        requires
            self.wf(),
        ensures
            pairs.deep_view() == self.pairs(views(this@)),
    {
        self.into_iter(this)
    }
}

/// What is derived for a declaration makes the pairs of the declaration's
/// records.
pub proof fn lemma_derived_pairs<I: IntoReprWith, F>(
    derived: IntoVecImpl<I, F>,
    opts: MacroOpts<I, F>,
    this: Seq<ValueView>,
)
    requires
        opts.data is Struct,
        derived.producers@ == field_producers(opts.fields()),
    ensures
        derived.pairs(this) == struct_pairs(opts, this),
{
    let count: nat = if this.len() < opts.fields().len() {
        this.len()
    } else {
        opts.fields().len()
    };
    lemma_producers_pairs(opts.fields(), this, count);
}

} // verus!

//! What holds of every record and of every input.

use vstd::prelude::*;
use crate::decoder::{consumed, default_values, evaluated, fold, initial, position, step};
use crate::derive::{
    from_iter_error, lemma_flattened_has_error, FromIterImpl, FromMappingImpl, MappedField,
    MatchFieldConsumer, ProducerExpr,
};
use crate::encoder::{field_pairs, fields_pairs, produced, produced_each, struct_pairs};
use crate::error::ErrorView;
use crate::field::{Field, Type};
use crate::mapped::{lemma_first_mapped_error, mapped_value, mapped_values};
use crate::opts::MacroOpts;
use crate::scalar::ScalarView;
use crate::transform::{FromReprWith, IntoReprWith};
use crate::value::ValueView;

verus! {

/// The number of pairs of the first `count` fields, field by field.
pub open spec fn fields_pair_count<I: IntoReprWith, F>(
    fields: Seq<Field<I, F>>,
    this: Seq<ValueView>,
    count: nat,
) -> nat
    decreases count,
{
    if count == 0 || count > fields.len() {
        0
    } else {
        fields_pair_count(fields, this, (count - 1) as nat) + field_pairs(
            fields[count - 1],
            this[count - 1],
        ).len()
    }
}

/// The number of pairs that `producer` makes of the items, item by item.
pub open spec fn items_pair_count<I: IntoReprWith, F>(
    producer: ProducerExpr<I>,
    ty: Type<I, F>,
    key: Seq<char>,
    items: Seq<ValueView>,
) -> nat
    decreases items.len(),
{
    if items.len() == 0 {
        0
    } else {
        items_pair_count(producer, ty, key, items.drop_last()) + produced(
            producer,
            ty,
            key,
            items.last(),
        ).len()
    }
}

/// A record has as many pairs as its fields have together.
pub proof fn lemma_record_pair_count<I: IntoReprWith, F>(
    fields: Seq<Field<I, F>>,
    this: Seq<ValueView>,
    count: nat,
)
    ensures
        fields_pairs(fields, this, count).len() == fields_pair_count(fields, this, count),
    decreases count,
{
    if count == 0 || count > fields.len() {
    } else {
        lemma_record_pair_count(fields, this, (count - 1) as nat);
    }
}

/// A sequence has as many pairs as its items have together.
pub proof fn lemma_items_pair_count<I: IntoReprWith, F>(
    producer: ProducerExpr<I>,
    ty: Type<I, F>,
    key: Seq<char>,
    items: Seq<ValueView>,
)
    ensures
        produced_each(producer, ty, key, items).len() == items_pair_count(
            producer,
            ty,
            key,
            items,
        ),
    decreases items.len(),
{
    if items.len() > 0 {
        lemma_items_pair_count(producer, ty, key, items.drop_last());
    }
}

/// The number of pairs of a value, by the kind of its producer: a scalar
/// has one; an absent value has none and a present one those of what is
/// present; a sequence those of its items together; a flattened record
/// those of the record, with or without a prefix.
pub proof fn lemma_pair_count<I: IntoReprWith, F>(
    inner: ProducerExpr<I>,
    ty: Type<I, F>,
    key: Seq<char>,
    prefix: String,
    scalar: ScalarView,
    present: ValueView,
    items: Seq<ValueView>,
    nested: MacroOpts<I, F>,
    fields: Seq<ValueView>,
)
    ensures
        produced(ProducerExpr::<I>::Scalar, ty, key, ValueView::Scalar(scalar)).len() == 1,
        produced(ProducerExpr::Optional(Box::new(inner)), ty, key, ValueView::Optional(None)).len()
            == 0,
        produced(
            ProducerExpr::Optional(Box::new(inner)),
            ty,
            key,
            ValueView::Optional(Some(Box::new(present))),
        ).len() == produced(inner, ty, key, present).len(),
        produced(
            ProducerExpr::Collection(Box::new(inner)),
            ty,
            key,
            ValueView::Collection(items),
        ).len() == items_pair_count(inner, ty, key, items),
        produced(
            ProducerExpr::<I>::Flattening,
            Type::Struct(Box::new(nested)),
            key,
            ValueView::Nested(fields),
        ).len() == struct_pairs(nested, fields).len(),
        produced(
            ProducerExpr::<I>::PrefixedFlattening(prefix),
            Type::Struct(Box::new(nested)),
            key,
            ValueView::Nested(fields),
        ).len() == struct_pairs(nested, fields).len(),
{
    reveal_with_fuel(produced, 2);
    lemma_items_pair_count(inner, ty, key, items);
}

/// A sequence of `n` scalars has `n` pairs, each under the field's key and
/// in the order of the scalars.
pub proof fn lemma_scalars_pairs<I: IntoReprWith, F>(
    ty: Type<I, F>,
    key: Seq<char>,
    items: Seq<ValueView>,
)
    requires
        forall|i: int| 0 <= i < items.len() ==> #[trigger] items[i] is Scalar,
    ensures
        produced_each(ProducerExpr::<I>::Scalar, ty, key, items).len() == items.len(),
        forall|i: int|
            0 <= i < items.len() ==> #[trigger] produced_each(
                ProducerExpr::<I>::Scalar,
                ty,
                key,
                items,
            )[i] == (key, items[i]->Scalar_0.text()),
    decreases items.len(),
{
    if items.len() > 0 {
        assert(items.last() is Scalar);
        assert forall|i: int| 0 <= i < items.drop_last().len() implies #[trigger] items.drop_last()[i] is Scalar by {
            assert(items.drop_last()[i] == items[i]);
        }
        lemma_scalars_pairs::<I, F>(ty, key, items.drop_last());
        let head = produced_each(ProducerExpr::<I>::Scalar, ty, key, items.drop_last());
        let last = produced(ProducerExpr::<I>::Scalar, ty, key, items.last());
        let all = produced_each(ProducerExpr::<I>::Scalar, ty, key, items);
        assert(last =~= seq![(key, items.last()->Scalar_0.text())]);
        assert(all == head + last);
        assert forall|i: int| 0 <= i < items.len() implies #[trigger] all[i] == (
            key,
            items[i]->Scalar_0.text(),
        ) by {
            if i < items.len() - 1 {
                assert(head[i] == (key, items.drop_last()[i]->Scalar_0.text()));
                assert(items.drop_last()[i] == items[i]);
            }
        }
    }
}

/// The consumer that answers to a key is one of the consumers, and the key
/// is its own.
pub proof fn lemma_position<F>(consumers: Seq<MatchFieldConsumer<F>>, key: Seq<char>, from: int)
    requires
        0 <= from,
    ensures
        position(consumers, key, from) matches Some(at) ==> from <= at < consumers.len()
            && consumers[at].key@ == key,
    decreases consumers.len() - from,
{
    if from < consumers.len() && consumers[from].key@ != key {
        lemma_position(consumers, key, from + 1);
    }
}

/// Whatever the record holds, reading a value and then another for the key
/// of a field that is no sequence leaves what reading the second alone
/// leaves, wherever the first can be read at all.
pub proof fn lemma_fold_last_wins<F: FromReprWith>(
    consumers: Seq<MatchFieldConsumer<F>>,
    this: Seq<ValueView>,
    key: Seq<char>,
    first: Seq<char>,
    second: Seq<char>,
)
    requires
        position(consumers, key, 0) matches Some(at) && !(consumers[at].consumer is Collection)
            && evaluated(consumers[at].value, consumers[at].ty, first) is Ok,
    ensures
        fold(consumers, this, seq![(key, first), (key, second)]) == fold(
            consumers,
            this,
            seq![(key, second)],
        ),
{
    let at = position(consumers, key, 0)->0;
    lemma_position(consumers, key, 0);
    let both = seq![(key, first), (key, second)];
    let one = seq![(key, second)];
    assert(both.drop_first() =~= one);
    assert(one.drop_first() =~= Seq::<(Seq<char>, Seq<char>)>::empty());
    reveal_with_fuel(fold, 3);
    let after = step(consumers, this, (key, first))->Ok_0;
    match evaluated(consumers[at].value, consumers[at].ty, second) {
        Ok(value) => {
            if at < this.len() {
                let consumer = consumers[at].consumer;
                let given = evaluated(consumers[at].value, consumers[at].ty, first)->Ok_0;
                assert(after == this.update(at, consumed(consumer, this[at], given)));
                assert(consumed(consumer, after[at], value) == initial(consumer, value));
                assert(consumed(consumer, this[at], value) == initial(consumer, value));
                assert(after.update(at, initial(consumer, value)) =~= this.update(
                    at,
                    initial(consumer, value),
                ));
            }
        },
        Err(_) => {},
    }
}

/// Whatever the record holds, reading a value and then another for the key
/// of a sequence adds what the first gives and then what the second gives
/// at the end of what the sequence held.
pub proof fn lemma_fold_accumulates<F: FromReprWith>(
    consumers: Seq<MatchFieldConsumer<F>>,
    this: Seq<ValueView>,
    key: Seq<char>,
    first: Seq<char>,
    second: Seq<char>,
)
    requires
        position(consumers, key, 0) matches Some(at) && at < this.len()
            && consumers[at].consumer is Collection && this[at] is Collection && evaluated(
            consumers[at].value,
            consumers[at].ty,
            first,
        ) is Ok && evaluated(consumers[at].value, consumers[at].ty, second) is Ok,
    ensures
        ({
            let at = position(consumers, key, 0)->0;
            let inner = *consumers[at].consumer->Collection_0;
            let a = evaluated(consumers[at].value, consumers[at].ty, first)->Ok_0;
            let b = evaluated(consumers[at].value, consumers[at].ty, second)->Ok_0;
            fold(consumers, this, seq![(key, first), (key, second)]) == Ok::<
                Seq<ValueView>,
                ErrorView,
            >(
                this.update(
                    at,
                    ValueView::Collection(
                        this[at]->Collection_0.push(initial(inner, a)).push(initial(inner, b)),
                    ),
                ),
            )
        }),
{
    let at = position(consumers, key, 0)->0;
    lemma_position(consumers, key, 0);
    let both = seq![(key, first), (key, second)];
    assert(both.drop_first() =~= seq![(key, second)]);
    assert(both.drop_first().drop_first() =~= Seq::<(Seq<char>, Seq<char>)>::empty());
    reveal_with_fuel(fold, 3);
    let inner = *consumers[at].consumer->Collection_0;
    let a = evaluated(consumers[at].value, consumers[at].ty, first)->Ok_0;
    let b = evaluated(consumers[at].value, consumers[at].ty, second)->Ok_0;
    let after = step(consumers, this, (key, first))->Ok_0;
    let consumer = consumers[at].consumer;
    let items = this[at]->Collection_0;
    assert(consumed(consumer, this[at], a) == ValueView::Collection(items.push(initial(inner, a))));
    assert(after == this.update(at, ValueView::Collection(items.push(initial(inner, a)))));
    assert(consumed(consumer, after[at], b) == ValueView::Collection(
        items.push(initial(inner, a)).push(initial(inner, b)),
    ));
    assert(step(consumers, after, (key, second))->Ok_0 =~= this.update(
        at,
        ValueView::Collection(
            this[at]->Collection_0.push(initial(inner, a)).push(initial(inner, b)),
        ),
    ));
}

/// A field that is no sequence holds what the last value for its key gave:
/// decoding a value and then another for the same key gives the record
/// that decoding the second alone gives, wherever the first can be read at
/// all.
pub proof fn lemma_last_occurrence_wins<F: FromReprWith>(
    derived: FromIterImpl<F>,
    key: Seq<char>,
    first: Seq<char>,
    second: Seq<char>,
)
    requires
        position(derived.consumers@, key, 0) matches Some(at)
            && !(derived.consumers@[at].consumer is Collection) && evaluated(
            derived.consumers@[at].value,
            derived.consumers@[at].ty,
            first,
        ) is Ok,
    ensures
        derived.decoded(seq![(key, first), (key, second)]) == derived.decoded(
            seq![(key, second)],
        ),
{
    lemma_fold_last_wins(
        derived.consumers@,
        default_values(derived.defaults@),
        key,
        first,
        second,
    );
}

/// A sequence is filled in the order of the input: decoding a value and
/// then another for the key of a sequence gives the record of the defaults
/// with what the first gives and then what the second gives at the end of
/// the sequence's default. From the empty default, the sequence holds the
/// two, first and second.
pub proof fn lemma_repeated_accumulates<F: FromReprWith>(
    derived: FromIterImpl<F>,
    key: Seq<char>,
    first: Seq<char>,
    second: Seq<char>,
)
    requires
        position(derived.consumers@, key, 0) matches Some(at) && at < derived.defaults@.len()
            && derived.consumers@[at].consumer is Collection && default_values(
            derived.defaults@,
        )[at] is Collection && evaluated(
            derived.consumers@[at].value,
            derived.consumers@[at].ty,
            first,
        ) is Ok && evaluated(derived.consumers@[at].value, derived.consumers@[at].ty, second)
            is Ok,
    ensures
        ({
            let at = position(derived.consumers@, key, 0)->0;
            let consumer = derived.consumers@[at];
            let inner = *consumer.consumer->Collection_0;
            let a = evaluated(consumer.value, consumer.ty, first)->Ok_0;
            let b = evaluated(consumer.value, consumer.ty, second)->Ok_0;
            let defaults = default_values(derived.defaults@);
            derived.decoded(seq![(key, first), (key, second)]) == Ok::<Seq<ValueView>, ErrorView>(
                defaults.update(
                    at,
                    ValueView::Collection(
                        defaults[at]->Collection_0.push(initial(inner, a)).push(initial(inner, b)),
                    ),
                ),
            )
        }),
{
    lemma_fold_accumulates(
        derived.consumers@,
        default_values(derived.defaults@),
        key,
        first,
        second,
    );
}

/// Pairs whose keys are those of no field change nothing: the record that
/// they give is the record of the defaults.
pub proof fn lemma_unknown_keys_ignored<F: FromReprWith>(
    derived: FromIterImpl<F>,
    pairs: Seq<(Seq<char>, Seq<char>)>,
)
    requires
        forall|i: int|
            0 <= i < pairs.len() ==> position(derived.consumers@, (#[trigger] pairs[i]).0, 0)
                is None,
    ensures
        derived.decoded(pairs) == Ok::<Seq<ValueView>, ErrorView>(
            default_values(derived.defaults@),
        ),
{
    lemma_fold_unknown(derived.consumers@, default_values(derived.defaults@), pairs);
}

/// Pairs whose keys are those of no field leave the record as it is.
pub proof fn lemma_fold_unknown<F: FromReprWith>(
    consumers: Seq<MatchFieldConsumer<F>>,
    this: Seq<ValueView>,
    pairs: Seq<(Seq<char>, Seq<char>)>,
)
    requires
        forall|i: int|
            0 <= i < pairs.len() ==> position(consumers, (#[trigger] pairs[i]).0, 0) is None,
    ensures
        fold(consumers, this, pairs) == Ok::<Seq<ValueView>, ErrorView>(this),
    decreases pairs.len(),
{
    if pairs.len() > 0 {
        assert(position(consumers, pairs[0].0, 0) is None);
        assert forall|i: int| 0 <= i < pairs.drop_first().len() implies position(
            consumers,
            (#[trigger] pairs.drop_first()[i]).0,
            0,
        ) is None by {
            assert(pairs.drop_first()[i] == pairs[i + 1]);
        }
        lemma_fold_unknown(consumers, this, pairs.drop_first());
    }
}

/// A field whose key does not come keeps its declared default: where no
/// pair has the key of any field, the field `at` of the record holds the
/// value that was declared for it.
pub proof fn lemma_default_of_sequence<F: FromReprWith>(
    derived: FromIterImpl<F>,
    pairs: Seq<(Seq<char>, Seq<char>)>,
    at: int,
)
    requires
        0 <= at < derived.defaults@.len(),
        forall|i: int|
            0 <= i < pairs.len() ==> position(derived.consumers@, (#[trigger] pairs[i]).0, 0)
                is None,
    ensures
        derived.decoded(pairs) matches Ok(this) && this.len() == derived.defaults@.len()
            && this[at] == crate::decoder::default_value(derived.defaults@[at]),
{
    lemma_unknown_keys_ignored(derived, pairs);
}

/// A field with a declared default whose key is missing from the mapping
/// gets that default.
pub proof fn lemma_default_of_mapping<I, F: FromReprWith>(
    mapped: MappedField<I, F>,
    entries: Map<Seq<char>, Seq<char>>,
)
    requires
        mapped matches MappedField::Keyed { key, missing, .. } && !entries.contains_key(key@)
            && missing is Value,
    ensures
        mapped_value(mapped, entries) == Ok::<ValueView, ErrorView>(
            (*mapped->Keyed_missing->Value_0)@,
        ),
{
}

/// A field without a default whose key is missing from the mapping fails
/// the decode with `MissingKey`, naming the key: where the fields before
/// the field `at` have their values, the error of the record is that of
/// the field.
pub proof fn lemma_missing_key<I, F: FromReprWith>(
    derived: FromMappingImpl<I, F>,
    entries: Map<Seq<char>, Seq<char>>,
    at: nat,
)
    requires
        at < derived.fields@.len(),
        mapped_values(derived.fields@, entries, at) is Ok,
        derived.fields@[at as int] matches MappedField::Keyed { key, missing, .. }
            && !entries.contains_key(key@) && missing is MissingKey,
    ensures
        derived.decoded(entries) == Err::<Seq<ValueView>, ErrorView>(
            ErrorView::MissingKey(derived.fields@[at as int]->Keyed_missing->MissingKey_0@),
        ),
{
    assert(mapped_values(derived.fields@, entries, at + 1) is Err);
    lemma_first_mapped_error(derived.fields@, entries, at + 1, derived.fields@.len());
}

/// No record is built from a sequence of pairs where a field is flattened:
/// for a declaration with such a field the conversion is not derived.
pub proof fn lemma_flattened_rejected<I, F>(opts: MacroOpts<I, F>, at: int)
    requires
        0 <= at < opts.fields().len(),
        opts.fields()[at].flatten is Some,
    ensures
        from_iter_error(opts) is Some,
{
    lemma_flattened_has_error(opts.fields(), 0, at);
}

} // verus!

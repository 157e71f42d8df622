//! What a derived [`crate::from_iter::FromIter`] makes of a sequence of
//! pairs.

use vstd::prelude::*;
use crate::derive::{DefaultExpr, FieldDefault, FromIterImpl, MatchFieldConsumer};
use crate::error::{Error, ErrorView};
use crate::field::{ConsumerExpr, ValueExpr};
use crate::scalar::{Scalar, ScalarType, ScalarView};
use crate::text::same;
use crate::transform::FromReprWith;
use crate::value::{lemma_views, views, Value, ValueView};

verus! {

/// The mathematical content of a decoded record, or of the error.
pub open spec fn record_view(result: Result<Vec<Value>, Error>) -> Result<
    Seq<ValueView>,
    ErrorView,
> {
    match result {
        Ok(values) => Ok(views(values@)),
        Err(error) => Err(error@),
    }
}

/// The scalar that `value` gets from `text`: the text read as `ty`, or what
/// the function makes of the text read as the type that the function takes.
pub open spec fn evaluated<F: FromReprWith>(value: ValueExpr<F>, ty: ScalarType, text: Seq<char>) -> Result<
    ScalarView,
    ErrorView,
>
    decreases value,
{
    match value {
        ValueExpr::FromStr => ty.parsed(text),
        ValueExpr::With(with, inner) => match evaluated(*inner, with.reads(), text) {
            Ok(repr) => with.applied(repr),
            Err(error) => Err(error),
        },
    }
}

/// The field that one value alone gives: the value itself, the value as
/// present, or the sequence of the one value.
pub open spec fn initial(consumer: ConsumerExpr, value: ScalarView) -> ValueView
    decreases consumer,
{
    match consumer {
        ConsumerExpr::Scalar => ValueView::Scalar(value),
        ConsumerExpr::Optional(inner) => ValueView::Optional(Some(Box::new(initial(*inner, value)))),
        ConsumerExpr::Collection(inner) => ValueView::Collection(seq![initial(*inner, value)]),
    }
}

/// The field after `value` has come in. A scalar or optional field holds
/// what the value alone gives, whatever it held before. A sequence has it
/// added at its end; a target of a collection that is no sequence is
/// replaced by the sequence of the one value.
pub open spec fn consumed(consumer: ConsumerExpr, target: ValueView, value: ScalarView) -> ValueView {
    match consumer {
        ConsumerExpr::Collection(inner) => match target {
            ValueView::Collection(items) => ValueView::Collection(
                items.push(initial(*inner, value)),
            ),
            _ => initial(consumer, value),
        },
        _ => initial(consumer, value),
    }
}

/// The default of a field's type: the zero of the scalar type, the absent
/// value, or the empty sequence.
pub open spec fn default_of(consumer: ConsumerExpr, ty: ScalarType) -> ValueView {
    match consumer {
        ConsumerExpr::Scalar => ValueView::Scalar(ty.zero()),
        ConsumerExpr::Optional(_) => ValueView::Optional(None),
        ConsumerExpr::Collection(_) => ValueView::Collection(Seq::empty()),
    }
}

/// What a field holds before any pair is read.
pub open spec fn default_value(default: FieldDefault) -> ValueView {
    match default.value {
        DefaultExpr::Value(value) => value@,
        DefaultExpr::Default => default_of(default.consumer, default.ty),
    }
}

/// What the fields hold before any pair is read.
pub open spec fn default_values(defaults: Seq<FieldDefault>) -> Seq<ValueView> {
    Seq::new(defaults.len(), |i: int| default_value(defaults[i]))
}

/// The first consumer, from `from` on, that answers to `key`.
pub open spec fn position<F>(consumers: Seq<MatchFieldConsumer<F>>, key: Seq<char>, from: int) -> Option<
    int,
>
    decreases consumers.len() - from,
{
    if from < 0 || from >= consumers.len() {
        None
    } else if consumers[from].key@ == key {
        Some(from)
    } else {
        position(consumers, key, from + 1)
    }
}

/// The record after one pair has been read: unchanged where no field
/// answers to the key; else the first such field has consumed what the
/// value stands for, or the value's error ends the reading.
pub open spec fn step<F: FromReprWith>(
    consumers: Seq<MatchFieldConsumer<F>>,
    this: Seq<ValueView>,
    pair: (Seq<char>, Seq<char>),
) -> Result<Seq<ValueView>, ErrorView> {
    match position(consumers, pair.0, 0) {
        None => Ok(this),
        Some(at) => match evaluated(consumers[at].value, consumers[at].ty, pair.1) {
            Err(error) => Err(error),
            Ok(value) => if at < this.len() {
                Ok(this.update(at, consumed(consumers[at].consumer, this[at], value)))
            } else {
                Ok(this)
            },
        },
    }
}

/// The record after the pairs have been read from first to last, or the
/// first error on the way.
pub open spec fn fold<F: FromReprWith>(
    consumers: Seq<MatchFieldConsumer<F>>,
    this: Seq<ValueView>,
    pairs: Seq<(Seq<char>, Seq<char>)>,
) -> Result<Seq<ValueView>, ErrorView>
    decreases pairs.len(),
{
    if pairs.len() == 0 {
        Ok(this)
    } else {
        match step(consumers, this, pairs[0]) {
            Err(error) => Err(error),
            Ok(next) => fold(consumers, next, pairs.drop_first()),
        }
    }
}

/// Gets the scalar that `value` stands for from `text`.
pub fn evaluate<F: FromReprWith>(value: &ValueExpr<F>, ty: ScalarType, text: &str) -> (result: Result<
    Scalar,
    Error,
>)
    ensures
        crate::from_repr::result_view(result) == evaluated(*value, ty, text@),
    decreases value,
{
    match value {
        ValueExpr::FromStr => ty.parse(text),
        ValueExpr::With(with, inner) => match evaluate(&**inner, with.repr_type(), text) {
            Ok(repr) => with.apply(repr),
            Err(error) => Err(error),
        },
    }
}

/// Makes the field that `value` alone gives.
pub fn init(consumer: &ConsumerExpr, value: Scalar) -> (target: Value)
    ensures
        target@ == initial(*consumer, value@),
    decreases consumer,
{
    match consumer {
        ConsumerExpr::Scalar => Value::Scalar(value),
        ConsumerExpr::Optional(inner) => Value::Optional(Some(Box::new(init(&**inner, value)))),
        ConsumerExpr::Collection(inner) => {
            let mut items: Vec<Value> = Vec::new();
            items.push(init(&**inner, value));
            proof {
                lemma_views(items);
                assert(views(items@) =~= seq![initial(**inner, value@)]);
            }
            Value::Collection(items)
        },
    }
}

/// Consumes or accumulates `value` into `target`.
pub fn consume(consumer: &ConsumerExpr, target: &mut Value, value: Scalar)
    ensures
        final(target)@ == consumed(*consumer, old(target)@, value@),
{
    match consumer {
        ConsumerExpr::Collection(inner) => {
            match target {
                Value::Collection(items) => {
                    let ghost before = *items;
                    let item = init(&**inner, value);
                    items.push(item);
                    proof {
                        lemma_views(before);
                        lemma_views(*items);
                        assert(views(items@) =~= views(before@).push(initial(**inner, value@)));
                    }
                },
                _ => {
                    *target = init(consumer, value);
                },
            }
        },
        _ => {
            *target = init(consumer, value);
        },
    }
}

impl<'a> FieldDefault<'a> {
    /// Makes what the field holds before any pair is read.
    pub fn make(&self) -> (value: Value)
        ensures
            value@ == default_value(*self),
    {
        match &self.value {
            DefaultExpr::Value(value) => (*value).clone(),
            DefaultExpr::Default => match &self.consumer {
                ConsumerExpr::Scalar => Value::Scalar(self.ty.default_value()),
                ConsumerExpr::Optional(_) => Value::Optional(None),
                ConsumerExpr::Collection(_) => {
                    let items: Vec<Value> = Vec::new();
                    proof {
                        lemma_views(items);
                        assert(views(items@) =~= Seq::empty());
                    }
                    Value::Collection(items)
                },
            },
        }
    }
}

impl<'a, F: FromReprWith> FromIterImpl<'a, F> {
    /// The record that `pairs` gives: every field starts from its default,
    /// then the pairs are read from first to last. A pair whose key is that
    /// of no field changes nothing. The first text that cannot be read ends
    /// the reading with its error.
    pub open spec fn decoded(&self, pairs: Seq<(Seq<char>, Seq<char>)>) -> Result<
        Seq<ValueView>,
        ErrorView,
    > {
        fold(self.consumers@, default_values(self.defaults@), pairs)
    }

    /// Finds the first consumer that answers to `key`.
    fn find(&self, key: &str) -> (found: Option<usize>)
        ensures
            match found {
                Some(at) => position(self.consumers@, key@, 0) == Some(at as int) && at
                    < self.consumers@.len(),
                None => position(self.consumers@, key@, 0) is None,
            },
    {
        let mut at: usize = 0;
        while at < self.consumers.len()
            invariant
                at <= self.consumers.len(),
                position(self.consumers@, key@, 0) == position(self.consumers@, key@, at as int),
            decreases self.consumers.len() - at,
        {
            if same(self.consumers[at].key.as_str(), key) {
                return Some(at);
            }
            at = at + 1;
        }
        None
    }

    /// Builds the record from the pairs.
    pub fn from_iter(&self, iter: &Vec<(String, String)>) -> (result: Result<Vec<Value>, Error>)
        ensures
            record_view(result) == self.decoded(iter.deep_view()),
    {
        let mut this: Vec<Value> = Vec::new();
        let mut at: usize = 0;
        while at < self.defaults.len()
            invariant
                at <= self.defaults.len(),
                this@.len() == at,
                forall|i: int| 0 <= i < at ==> this@[i]@ == default_value(self.defaults@[i]),
            decreases self.defaults.len() - at,
        {
            this.push(self.defaults[at].make());
            at = at + 1;
        }
        assert(views(this@) =~= default_values(self.defaults@));
        let mut at: usize = 0;
        assert(iter.deep_view().skip(0) =~= iter.deep_view());
        while at < iter.len()
            invariant
                at <= iter.len(),
                self.decoded(iter.deep_view()) == fold(
                    self.consumers@,
                    views(this@),
                    iter.deep_view().skip(at as int),
                ),
            decreases iter.len() - at,
        {
            let key = iter[at].0.as_str();
            let text = iter[at].1.as_str();
            proof {
                let rest = iter.deep_view().skip(at as int);
                assert(rest[0] == (key@, text@));
                assert(rest.drop_first() =~= iter.deep_view().skip(at as int + 1));
            }
            match self.find(key) {
                None => {},
                Some(found) => {
                    let consumer = &self.consumers[found];
                    match evaluate(&consumer.value, consumer.ty, text) {
                        Err(error) => {
                            return Err(error);
                        },
                        Ok(value) => {
                            if found < this.len() {
                                let ghost before = views(this@);
                                consume(&consumer.consumer, &mut this[found], value);
                                assert(views(this@) =~= before.update(
                                    found as int,
                                    consumed(consumer.consumer, before[found as int], value@),
                                ));
                            }
                        },
                    }
                },
            }
            at = at + 1;
        }
        Ok(this)
    }
}

} // verus!

//! How a field's value turns into key-value pairs: one pair, one pair or
//! none, one pair for each element, or the pairs of a nested record.

use vstd::prelude::*;
use crate::into_vec::IntoVec;
use crate::to_repr::ToRepr;

verus! {

/// The pairs `pairs`, each key with `prefix` in front of it.
pub open spec fn prefixed(prefix: Seq<char>, pairs: Seq<(Seq<char>, Seq<char>)>) -> Seq<
    (Seq<char>, Seq<char>),
> {
    Seq::new(pairs.len(), |i: int| (prefix + pairs[i].0, pairs[i].1))
}

/// Responsible for producing the key-value entries based on its value.
///
/// May produce none, one or many entries, depending on a specific type.
pub trait Producer<T> {
    /// Whether the producer can be handed `value`.
    spec fn accepts(&self, value: T) -> bool;

    /// Whether `pairs` is what the producer makes of `value` under `key`.
    spec fn produces(&self, key: Seq<char>, value: T, pairs: Seq<(Seq<char>, Seq<char>)>) -> bool;

    fn produce(self, key: &str, value: T) -> (pairs: Vec<(String, String)>)
        requires
            self.accepts(value),
        ensures
            self.produces(key@, value, pairs.deep_view()),
    ;
}

/// Scalar producer.
///
/// Produces exactly one key-value pair.
#[derive(Copy, Clone)]
pub struct ScalarProducer;

impl<V: ToRepr> Producer<V> for ScalarProducer {
    open spec fn accepts(&self, value: V) -> bool {
        true
    }

    open spec fn produces(&self, key: Seq<char>, value: V, pairs: Seq<(Seq<char>, Seq<char>)>) -> bool {
        pairs == seq![(key, value.repr())]
    }

    #[inline]
    fn produce(self, key: &str, value: V) -> (pairs: Vec<(String, String)>) {
        let mut pairs: Vec<(String, String)> = Vec::new();
        pairs.push((String::from_str(key), value.to_repr()));
        assert(pairs.deep_view() =~= seq![(key@, value.repr())]);
        pairs
    }
}

/// Hands the value through a function before the inner producer gets it.
#[derive(Copy, Clone)]
pub struct WrappedProducer<P, F>(pub P, pub F);

impl<V1, V2, P: Producer<V2>, F: Fn(V1) -> V2> Producer<V1> for WrappedProducer<P, F> {
    open spec fn accepts(&self, value: V1) -> bool {
        &&& call_requires(self.1, (value,))
        &&& forall|mid: V2| call_ensures(self.1, (value,), mid) ==> self.0.accepts(mid)
    }

    open spec fn produces(&self, key: Seq<char>, value: V1, pairs: Seq<(Seq<char>, Seq<char>)>) -> bool {
        exists|mid: V2|
            call_ensures(self.1, (value,), mid) && #[trigger] self.0.produces(key, mid, pairs)
    }

    #[inline]
    fn produce(self, key: &str, value: V1) -> (pairs: Vec<(String, String)>) {
        let mid = (self.1)(value);
        self.0.produce(key, mid)
    }
}

/// Optional scaler producer.
///
/// Produces none or one key-value pair.
#[derive(Copy, Clone)]
pub struct OptionProducer<P>(pub P);

impl<V, P: Producer<V>> Producer<Option<V>> for OptionProducer<P> {
    open spec fn accepts(&self, value: Option<V>) -> bool {
        value matches Some(inner) ==> self.0.accepts(inner)
    }

    open spec fn produces(
        &self,
        key: Seq<char>,
        value: Option<V>,
        pairs: Seq<(Seq<char>, Seq<char>)>,
    ) -> bool {
        match value {
            Some(inner) => self.0.produces(key, inner, pairs),
            None => pairs == Seq::<(Seq<char>, Seq<char>)>::empty(),
        }
    }

    #[inline]
    fn produce(self, key: &str, value: Option<V>) -> (pairs: Vec<(String, String)>) {
        match value {
            Some(inner) => self.0.produce(key, inner),
            None => {
                let pairs: Vec<(String, String)> = Vec::new();
                assert(pairs.deep_view() =~= Seq::empty());
                pairs
            },
        }
    }
}

/// Collection producer.
///
/// Produces as many key-value pairs as the number of the collection elements.
#[derive(Copy, Clone)]
pub struct CollectionProducer<P>(pub P);

impl<V, P: Producer<V> + Copy + Clone> Producer<Vec<V>> for CollectionProducer<P> {
    open spec fn accepts(&self, values: Vec<V>) -> bool {
        forall|i: int| 0 <= i < values@.len() ==> self.0.accepts(#[trigger] values@[i])
    }

    open spec fn produces(
        &self,
        key: Seq<char>,
        values: Vec<V>,
        pairs: Seq<(Seq<char>, Seq<char>)>,
    ) -> bool {
        exists|parts: Seq<Seq<(Seq<char>, Seq<char>)>>|
            {
                &&& parts.len() == values@.len()
                &&& forall|i: int|
                    0 <= i < parts.len() ==> self.0.produces(key, values@[i], #[trigger] parts[i])
                &&& pairs == parts.flatten()
            }
    }

    #[inline]
    fn produce(self, key: &str, values: Vec<V>) -> (pairs: Vec<(String, String)>) {
        let mut pairs: Vec<(String, String)> = Vec::new();
        let ghost mut parts: Seq<Seq<(Seq<char>, Seq<char>)>> = Seq::empty();
        assert(pairs.deep_view() =~= parts.flatten());
        for value in it: values
            invariant
                it.seq() == values@,
                self.accepts(values),
                parts.len() == it.index(),
                forall|i: int|
                    0 <= i < parts.len() ==> self.0.produces(key@, values@[i], #[trigger] parts[i]),
                pairs.deep_view() == parts.flatten(),
        {
            let ghost before = pairs.deep_view();
            let mut part = self.0.produce(key, value);
            let ghost made = part.deep_view();
            pairs.append(&mut part);
            proof {
                assert(pairs.deep_view() =~= before + made);
                parts.lemma_flatten_push(made);
                parts = parts.push(made);
            }
        }
        pairs
    }
}

/// Simple flattening producer.
///
/// Forwards all the key-value pairs from the inner structure.
#[derive(Copy, Clone)]
pub struct FlatteningProducer;

impl<T: IntoVec> Producer<T> for FlatteningProducer {
    open spec fn accepts(&self, value: T) -> bool {
        true
    }

    open spec fn produces(&self, key: Seq<char>, value: T, pairs: Seq<(Seq<char>, Seq<char>)>) -> bool {
        pairs == value.pairs()
    }

    #[inline]
    fn produce(self, _key: &str, value: T) -> (pairs: Vec<(String, String)>) {
        value.into_iter()
    }
}

/// Prefixed flattening producer.
///
/// Forwards all the key-value pairs from the inner structure,
/// but additionally prepends the keys with the prefix.
#[derive(Copy, Clone)]
pub struct PrefixedFlatteningProducer<'a>(pub &'a str);

impl<'a, V: IntoVec> Producer<V> for PrefixedFlatteningProducer<'a> {
    open spec fn accepts(&self, value: V) -> bool {
        true
    }

    open spec fn produces(&self, key: Seq<char>, value: V, pairs: Seq<(Seq<char>, Seq<char>)>) -> bool {
        pairs == prefixed(self.0@, value.pairs())
    }

    #[inline]
    fn produce(self, _key: &str, value: V) -> (pairs: Vec<(String, String)>) {
        let inner = value.into_iter();
        prefix_keys(self.0, inner)
    }
}

/// Puts `prefix` in front of the key of each pair.
pub fn prefix_keys(prefix: &str, pairs: Vec<(String, String)>) -> (out: Vec<(String, String)>)
    ensures
        out.deep_view() == prefixed(prefix@, pairs.deep_view()),
{
    let mut out: Vec<(String, String)> = Vec::new();
    for pair in it: pairs
        invariant
            it.seq() == pairs@,
            out@.len() == it.index(),
            forall|i: int|
                0 <= i < out@.len() ==> (#[trigger] out@[i]).0@ == prefix@ + pairs@[i].0@
                    && out@[i].1@ == pairs@[i].1@,
    {
        let (key, value) = pair;
        out.push((crate::text::join(prefix, key.as_str()), value));
    }
    assert(out.deep_view() =~= prefixed(prefix@, pairs.deep_view()));
    out
}

} // verus!

//! Records that are built by looking their keys up in a mapping.

use vstd::prelude::*;
use vstd::hash_map::StringHashMap;
use crate::error::{Error, ErrorView};
use crate::from_repr::result_view;

verus! {

/// Constructs the structure from a mapping such as [`StringHashMap`].
pub trait FromMapping: Sized + View {
    /// The record that the entries give, or the first error in the order of
    /// the fields.
    spec fn decoded(entries: Map<Seq<char>, Seq<char>>) -> Result<Self::V, ErrorView>;

    fn from_mapping<M: Mapping>(mapping: M) -> (result: Result<Self, Error>)
        ensures
            result_view(result) == Self::decoded(mapping.entries()),
    ;
}

/// Abstracts concrete map types so that [`FromMapping`] could accept any of the implementors.
pub trait Mapping {
    /// The keys of the mapping, each with its value.
    spec fn entries(&self) -> Map<Seq<char>, Seq<char>>;

    fn get_value(&self, key: &str) -> (value: Option<&str>)
        ensures
            match value {
                Some(text) => self.entries().contains_key(key@) && text@ == self.entries()[key@],
                None => !self.entries().contains_key(key@),
            },
    ;
}

/// The entries that are seen through a prefix: `key` is there where the
/// mapping has `prefix + key`, with that entry's value.
pub open spec fn prefixed_entries(entries: Map<Seq<char>, Seq<char>>, prefix: Seq<char>) -> Map<
    Seq<char>,
    Seq<char>,
> {
    Map::new(|key: Seq<char>| entries.contains_key(prefix + key), |key: Seq<char>| entries[prefix + key])
}

/// Wraps another mapping so that the values are got from the prefixed keys.
pub struct PrefixedMapping<'a, T>(pub T, pub &'a str);

impl<'a, T: Mapping> Mapping for PrefixedMapping<'a, T> {
    open spec fn entries(&self) -> Map<Seq<char>, Seq<char>> {
        prefixed_entries(self.0.entries(), self.1@)
    }

    fn get_value(&self, key: &str) -> (value: Option<&str>) {
        let full = crate::text::join(self.1, key);
        self.0.get_value(full.as_str())
    }
}

impl<'a, T: Mapping> Mapping for &'a T {
    open spec fn entries(&self) -> Map<Seq<char>, Seq<char>> {
        (**self).entries()
    }

    fn get_value(&self, key: &str) -> (value: Option<&str>) {
        (**self).get_value(key)
    }
}

/// The view of a map from strings to strings, each value as its characters.
pub open spec fn string_entries(map: Map<Seq<char>, String>) -> Map<Seq<char>, Seq<char>> {
    Map::new(|key: Seq<char>| map.contains_key(key), |key: Seq<char>| map[key]@)
}

impl Mapping for StringHashMap<String> {
    open spec fn entries(&self) -> Map<Seq<char>, Seq<char>> {
        string_entries(self@)
    }

    fn get_value(&self, key: &str) -> (value: Option<&str>) {
        match self.get(key) {
            Some(text) => Some(text.as_str()),
            None => None,
        }
    }
}

/// The mapping that holds each key of `pairs` with the value that came last
/// for it.
pub fn mapping_from_pairs(pairs: &Vec<(String, String)>) -> (mapping: StringHashMap<String>)
    ensures
        mapping.entries() == entries_of(pairs.deep_view()),
{
    let mut mapping: StringHashMap<String> = StringHashMap::new();
    let mut at: usize = 0;
    assert(mapping.entries() =~= entries_of(pairs.deep_view().take(0)));
    while at < pairs.len()
        invariant
            at <= pairs.len(),
            mapping.entries() == entries_of(pairs.deep_view().take(at as int)),
        decreases pairs.len() - at,
    {
        let key = pairs[at].0.clone();
        let value = pairs[at].1.clone();
        mapping.insert(key, value);
        proof {
            let all = pairs.deep_view();
            assert(all.take(at as int + 1).drop_last() =~= all.take(at as int));
            assert(all.take(at as int + 1).last() == (pairs@[at as int].0@, pairs@[at as int].1@));
            assert(mapping.entries() =~= entries_of(all.take(at as int + 1)));
        }
        at = at + 1;
    }
    assert(pairs.deep_view().take(at as int) =~= pairs.deep_view());
    mapping
}

/// The entries that a sequence of pairs stands for: each key with the value
/// of its last pair.
pub open spec fn entries_of(pairs: Seq<(Seq<char>, Seq<char>)>) -> Map<Seq<char>, Seq<char>>
    decreases pairs.len(),
{
    if pairs.len() == 0 {
        Map::empty()
    } else {
        entries_of(pairs.drop_last()).insert(pairs.last().0, pairs.last().1)
    }
}

/// The record without fields comes from any mapping: it looks nothing up.
impl FromMapping for () {
    open spec fn decoded(entries: Map<Seq<char>, Seq<char>>) -> Result<(), ErrorView> {
        Ok(())
    }

    fn from_mapping<M: Mapping>(mapping: M) -> (result: Result<(), Error>) {
        Ok(())
    }
}

} // verus!

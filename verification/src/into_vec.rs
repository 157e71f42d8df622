//! Records that turn into key-value pairs.

use vstd::prelude::*;

verus! {

/// Converts the structure into an iterator or vector of key-value pairs.
pub trait IntoVec: Sized {
    /// The pairs of the record: those of its fields, in the order in which
    /// the fields are declared.
    spec fn pairs(&self) -> Seq<(Seq<char>, Seq<char>)>;

    fn into_iter(self) -> (pairs: Vec<(String, String)>)
        ensures
            pairs.deep_view() == self.pairs(),
    ;

    fn into_vec(self) -> (pairs: Vec<(String, String)>)
        ensures
            pairs.deep_view() == self.pairs(),
    {
        self.into_iter()
    }
}

/// The record without fields has no pairs.
impl IntoVec for () {
    open spec fn pairs(&self) -> Seq<(Seq<char>, Seq<char>)> {
        Seq::empty()
    }

    fn into_iter(self) -> (pairs: Vec<(String, String)>) {
        let pairs: Vec<(String, String)> = Vec::new();
        assert(pairs.deep_view() =~= Seq::empty());
        pairs
    }
}

/// A vector of pairs is a record whose pairs are known already.
impl IntoVec for Vec<(String, String)> {
    open spec fn pairs(&self) -> Seq<(Seq<char>, Seq<char>)> {
        self.deep_view()
    }

    fn into_iter(self) -> (pairs: Vec<(String, String)>) {
        self
    }
}

} // verus!

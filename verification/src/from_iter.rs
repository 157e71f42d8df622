//! Records that are built from a sequence of key-value pairs.

use vstd::prelude::*;
use crate::error::{Error, ErrorView};
use crate::from_repr::result_view;

verus! {

/// Constructs the structure from the iterator of key-value pairs.
pub trait FromIter: Sized + View {
    /// The record that `pairs` gives, read from first to last, or the first
    /// error on the way.
    spec fn decoded(pairs: Seq<(Seq<char>, Seq<char>)>) -> Result<Self::V, ErrorView>;

    fn from_iter(iter: &Vec<(String, String)>) -> (result: Result<Self, Error>)
        ensures
            result_view(result) == Self::decoded(iter.deep_view()),
    ;
}

/// The record without fields comes from any pairs: no key is its own.
impl FromIter for () {
    open spec fn decoded(pairs: Seq<(Seq<char>, Seq<char>)>) -> Result<(), ErrorView> {
        Ok(())
    }

    fn from_iter(iter: &Vec<(String, String)>) -> (result: Result<(), Error>) {
        Ok(())
    }
}

} // verus!

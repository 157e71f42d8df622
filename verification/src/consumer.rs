//! How an incoming value is folded into a field: replacing it, making it
//! present, or joining a sequence.

use vstd::prelude::*;
use std::marker::PhantomData;

verus! {

/// Responsible for consuming the scalar value and modifying itself accordingly.
pub trait Consumer: Sized {
    /// Defines the scalar representation type.
    type Repr;

    type Target;

    /// Whether `target` is what `value` alone gives.
    spec fn initialized(&self, value: Self::Repr, target: Self::Target) -> bool;

    /// Whether `after` is what `before` becomes when `value` comes in.
    spec fn consumed(&self, before: Self::Target, value: Self::Repr, after: Self::Target) -> bool;

    fn init(&self, value: Self::Repr) -> (target: Self::Target)
        ensures
            self.initialized(value, target),
    ;

    /// Consume or accumulate the new value into itself.
    ///
    /// May consume one or more entries.
    fn consume(&self, target: &mut Self::Target, value: Self::Repr)
        ensures
            self.consumed(*old(target), value, *final(target)),
    ;
}

/// Exactly one value: each incoming value replaces the one before.
pub struct ScalarConsumer<T>(pub PhantomData<T>);

impl<T> Consumer for ScalarConsumer<T> {
    type Repr = T;

    type Target = T;

    open spec fn initialized(&self, value: T, target: T) -> bool {
        target == value
    }

    open spec fn consumed(&self, before: T, value: T, after: T) -> bool {
        after == value
    }

    #[inline]
    fn init(&self, value: T) -> (target: T) {
        value
    }

    #[inline]
    fn consume(&self, target: &mut T, value: T) {
        *target = value;
    }
}

/// A value that may be absent: any incoming value makes it present.
pub struct OptionConsumer<T: Consumer>(pub T);

impl<T: Consumer> Consumer for OptionConsumer<T> {
    type Repr = T::Repr;

    type Target = Option<T::Target>;

    open spec fn initialized(&self, value: T::Repr, target: Option<T::Target>) -> bool {
        target matches Some(inner) && self.0.initialized(value, inner)
    }

    open spec fn consumed(
        &self,
        before: Option<T::Target>,
        value: T::Repr,
        after: Option<T::Target>,
    ) -> bool {
        self.initialized(value, after)
    }

    #[inline]
    fn init(&self, value: T::Repr) -> (target: Option<T::Target>) {
        Some(self.0.init(value))
    }

    #[inline]
    fn consume(&self, target: &mut Option<T::Target>, value: T::Repr) {
        *target = self.init(value);
    }
}

/// A sequence: each incoming value is added at its end.
pub struct CollectionConsumer<T: Consumer>(pub T);

impl<T: Consumer> Consumer for CollectionConsumer<T> {
    type Repr = T::Repr;

    type Target = Vec<T::Target>;

    open spec fn initialized(&self, value: T::Repr, target: Vec<T::Target>) -> bool {
        target@.len() == 1 && self.0.initialized(value, target@[0])
    }

    open spec fn consumed(
        &self,
        before: Vec<T::Target>,
        value: T::Repr,
        after: Vec<T::Target>,
    ) -> bool {
        &&& after@.len() == before@.len() + 1
        &&& after@.drop_last() == before@
        &&& self.0.initialized(value, after@.last())
    }

    #[inline]
    fn init(&self, value: T::Repr) -> (target: Vec<T::Target>) {
        let mut target = Vec::new();
        target.push(self.0.init(value));
        target
    }

    #[inline]
    fn consume(&self, target: &mut Vec<T::Target>, value: T::Repr) {
        target.push(self.0.init(value));
        assert(target@.drop_last() =~= old(target)@);
    }
}

} // verus!

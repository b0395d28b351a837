//! Appending an element behind the last one of a container.
//!
//! A container is `()` when it is empty, and else a pair of its first element and the container
//! of the others: `(a, (b, (c, ())))` holds `a`, `b` and `c`, in the order in which they were
//! appended.

use crate::handle::{new_handle, Handle, Skip, Take};
use crate::lookup::Lookup;
use vstd::prelude::*;

verus! {

/// `Self` starts with the elements of a container of type `T`, type by type.
///
/// This is what keeps a handle good: a navigator that `T` accepts walks through the same
/// element types in `Self`.
pub trait PrefixedWith<T> where T: ?Sized {
    /// Each element of `prefix` stands in `self` at the same position with the same value.
    spec fn prefixed_with(&self, prefix: &T) -> bool;
}

impl<U, V0, V1> PrefixedWith<(U, V0)> for (U, V1) where V1: PrefixedWith<V0> {
    open spec fn prefixed_with(&self, prefix: &(U, V0)) -> bool {
        self.0 == prefix.0 && self.1.prefixed_with(&prefix.1)
    }
}

impl<U, V> PrefixedWith<()> for (U, V) {
    open spec fn prefixed_with(&self, prefix: &()) -> bool {
        true
    }
}

impl PrefixedWith<()> for () {
    open spec fn prefixed_with(&self, prefix: &()) -> bool {
        true
    }
}

/// Allows appending a value of type `T` to the implementing container.
pub trait Append<T> {
    /// The resulting type after adding an element of type `T`.
    type Output: PrefixedWith<Self> + Lookup<T, Self::Navigator>;

    /// A type describing how to borrow the `T` which is added.
    ///
    /// If the output type is `(X, (Y, (Z, ())))`, the `Z` was just added and the navigator is
    /// `(Skip, (Skip, Take))`.
    type Navigator;

    /// The container that holds the elements of `self`, and `t` behind them.
    spec fn appended(self, t: T) -> Self::Output;

    /// The elements that were there stay where they are, and the navigator leads to the new
    /// one.
    proof fn lemma_appended(self, t: T)
        ensures
            self.appended(t).prefixed_with(&self),
            Lookup::<T, Self::Navigator>::target(&self.appended(t)) == t,
    ;

    /// Append the element, returning a new collection and a handle to borrow the element back.
    fn append(self, t: T) -> (out: (Self::Output, Handle<T, Self::Navigator>))
        ensures
            out.0 == self.appended(t),
    ;
}

impl<T, U, V> Append<T> for (U, V) where V: Append<T> {
    // Mid-list: the head stays, the tail takes the element.
    type Output = (U, <V as Append<T>>::Output);

    // Mid-list: skip the head, then navigate as the tail says.
    type Navigator = (Skip, <V as Append<T>>::Navigator);

    open spec fn appended(self, t: T) -> Self::Output {
        (self.0, self.1.appended(t))
    }

    proof fn lemma_appended(self, t: T) {
        self.1.lemma_appended(t);
    }

    fn append(self, t: T) -> (out: (Self::Output, Handle<T, Self::Navigator>)) {
        let (u, v) = self;
        ((u, v.append(t).0), new_handle())
    }
}

impl<T> Append<T> for () {
    // The end of the list: the element goes here.
    type Output = (T, ());

    // The element is the head of what comes out.
    type Navigator = Take;

    open spec fn appended(self, t: T) -> Self::Output {
        (t, ())
    }

    proof fn lemma_appended(self, t: T) {
    }

    fn append(self, t: T) -> (out: (Self::Output, Handle<T, Self::Navigator>)) {
        ((t, ()), new_handle())
    }
}

} // verus!

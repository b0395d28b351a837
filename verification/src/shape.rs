//! Positions and lengths: what the navigator and container types say in numbers.

use crate::append::Append;
use crate::handle::{Skip, Take};
use crate::lookup::Lookup;
use vstd::prelude::*;

verus! {

/// A navigator: a run of `Skip` markers that ends in one `Take`.
pub trait Path {
    /// The zero-based position that the navigator leads to: the number of its `Skip` markers.
    spec fn position() -> nat;
}

impl Path for Take {
    open spec fn position() -> nat {
        0
    }
}

impl<N> Path for (Skip, N) where N: Path {
    open spec fn position() -> nat {
        1 + N::position()
    }
}

/// A container: nested pairs, one per element, that end in `()`.
pub trait Shape {
    /// The number of elements.
    spec fn len() -> nat;
}

impl Shape for () {
    open spec fn len() -> nat {
        0
    }
}

impl<U, V> Shape for (U, V) where V: Shape {
    open spec fn len() -> nat {
        1 + V::len()
    }
}

/// A navigator that a container accepts leads to one of its elements.
pub trait LookupWithin<T, N>: Lookup<T, N> + Shape where N: Path {
    proof fn lemma_position_within()
        ensures
            N::position() < Self::len(),
    ;
}

impl<T, V> LookupWithin<T, Take> for (T, V) where V: Shape {
    proof fn lemma_position_within() {
    }
}

impl<T, U, V, N> LookupWithin<T, (Skip, N)> for (U, V) where N: Path, V: LookupWithin<T, N> {
    proof fn lemma_position_within() {
        V::lemma_position_within();
    }
}

/// Appending makes the container one element longer, and the navigator that it hands out leads
/// to the place behind the elements that were there before.
pub trait AppendLast<T>: Append<T> + Shape where
    <Self as Append<T>>::Output: Shape,
    <Self as Append<T>>::Navigator: Path,
 {
    proof fn lemma_appended_last()
        ensures
            <Self as Append<T>>::Navigator::position() == Self::len(),
            <Self as Append<T>>::Output::len() == Self::len() + 1,
    ;
}

impl<T> AppendLast<T> for () {
    proof fn lemma_appended_last() {
    }
}

impl<T, U, V> AppendLast<T> for (U, V) where
    V: AppendLast<T>,
    <V as Append<T>>::Output: Shape,
    <V as Append<T>>::Navigator: Path,
 {
    proof fn lemma_appended_last() {
        V::lemma_appended_last();
    }
}

} // verus!

//! Following a navigator to the element that it leads to.

use crate::handle::{Skip, Take};
use vstd::prelude::*;

verus! {

/// Allows borrowing a value of type `T` from the implementing container, along the navigator
/// `N`.
///
/// The impls below are the only way in: a pair answers `Take` with its head, and answers
/// `(Skip, N)` with what its tail answers to `N`. A navigator that runs past the end of the
/// container, or that stops at an element of another type, has no impl and does not compile.
pub trait Lookup<T, N> {
    /// The element that the navigator `N` leads to.
    spec fn target(&self) -> T;

    /// Borrows the element that the navigator `N` leads to.
    fn get_from(&self) -> (found: &T)
        ensures
            *found == self.target(),
    ;
}

impl<T, U, V, N> Lookup<T, (Skip, N)> for (U, V) where V: Lookup<T, N> {
    open spec fn target(&self) -> T {
        Lookup::<T, N>::target(&self.1)
    }

    fn get_from(&self) -> (found: &T) {
        self.1.get_from()
    }
}

impl<T, V> Lookup<T, Take> for (T, V) {
    open spec fn target(&self) -> T {
        self.0
    }

    fn get_from(&self) -> (found: &T) {
        &self.0
    }
}

} // verus!

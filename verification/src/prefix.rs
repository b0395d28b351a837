//! What follows from one container being a prefix of another.
//!
//! `PrefixedWith` relates two container types, so what holds of it is proved pair of types by
//! pair of types: each statement here is a trait, implemented along the same structure as
//! `PrefixedWith` itself. Concrete container types get the impls without asking; generic code
//! names the trait in its bounds and calls the proof.

use crate::append::PrefixedWith;
use crate::handle::{Skip, Take};
use crate::lookup::Lookup;
use vstd::prelude::*;

verus! {

/// A navigator that `Old` accepts finds the same value in every container that has `Old` as a
/// prefix.
pub trait StableLookup<T, N, Old>: Lookup<T, N> + PrefixedWith<Old> where Old: Lookup<T, N> {
    proof fn lemma_lookup_stable(&self, old: &Old)
        requires
            self.prefixed_with(old),
        ensures
            Lookup::<T, N>::target(self) == Lookup::<T, N>::target(old),
    ;
}

impl<T, W0, W1> StableLookup<T, Take, (T, W0)> for (T, W1) where W1: PrefixedWith<W0> {
    proof fn lemma_lookup_stable(&self, old: &(T, W0)) {
    }
}

impl<T, N, U, W0, W1> StableLookup<T, (Skip, N), (U, W0)> for (U, W1) where
    W0: Lookup<T, N>,
    W1: StableLookup<T, N, W0>,
 {
    proof fn lemma_lookup_stable(&self, old: &(U, W0)) {
        self.1.lemma_lookup_stable(&old.1);
    }
}

/// Every container is a prefix of itself.
pub trait PrefixReflexive: PrefixedWith<Self> + Sized {
    proof fn lemma_prefix_reflexive(&self)
        ensures
            self.prefixed_with(self),
    ;
}

impl PrefixReflexive for () {
    proof fn lemma_prefix_reflexive(&self) {
    }
}

impl<U, V> PrefixReflexive for (U, V) where V: PrefixReflexive {
    proof fn lemma_prefix_reflexive(&self) {
        self.1.lemma_prefix_reflexive();
    }
}

/// A prefix of a prefix is a prefix.
pub trait PrefixTransitive<Mid, Old>: PrefixedWith<Mid> + PrefixedWith<Old> where
    Mid: PrefixedWith<Old>,
 {
    proof fn lemma_prefix_transitive(&self, mid: &Mid, old: &Old)
        requires
            self.prefixed_with(mid),
            mid.prefixed_with(old),
        ensures
            self.prefixed_with(old),
    ;
}

impl PrefixTransitive<(), ()> for () {
    proof fn lemma_prefix_transitive(&self, mid: &(), old: &()) {
    }
}

impl<U, V, Mid> PrefixTransitive<Mid, ()> for (U, V) where
    (U, V): PrefixedWith<Mid>,
    Mid: PrefixedWith<()>,
 {
    proof fn lemma_prefix_transitive(&self, mid: &Mid, old: &()) {
    }
}

impl<U, W0, W1, W2> PrefixTransitive<(U, W1), (U, W0)> for (U, W2) where
    W1: PrefixedWith<W0>,
    W2: PrefixTransitive<W1, W0>,
 {
    proof fn lemma_prefix_transitive(&self, mid: &(U, W1), old: &(U, W0)) {
        self.1.lemma_prefix_transitive(&mid.1, &old.1);
    }
}

} // verus!

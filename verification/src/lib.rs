//! A type-safe, heterogeneous, append-only collection.
//!
//! A `BorrowBag` takes values of any types, one `add` at a time. Each `add` hands back the bag,
//! now of a longer type, and a zero-sized `Handle` whose type records where the value went.
//! `borrow` follows a handle to its value. Nothing is ever removed or moved, so a handle stays
//! good for every bag that grows out of the one that issued it; that the handle fits the bag is
//! settled by the types, before anything runs.
//!
//! ```rust
//! use borrow_bag::new_borrow_bag;
//!
//! let bag = new_borrow_bag();
//! let (bag, name) = bag.add("hello");
//! let (bag, answer) = bag.add(42u8);
//!
//! assert_eq!(*bag.borrow(name), "hello");
//! assert_eq!(*bag.borrow(answer), 42);
//! ```

pub mod append;
pub mod handle;
pub mod lookup;
pub mod prefix;
pub mod shape;

use crate::append::{Append, PrefixedWith};
use crate::handle::Handle;
use crate::lookup::Lookup;
use crate::prefix::{PrefixTransitive, StableLookup};
use vstd::prelude::*;

verus! {

/// `BorrowBag` allows the storage of any value using `add(T)`, and returns a `Handle` which can
/// be used to borrow the value back later. As the `BorrowBag` is add-only, `Handle` values
/// remain valid for the lifetime of the `BorrowBag`.
pub struct BorrowBag<V> {
    v: V,
}

impl<V> View for BorrowBag<V> {
    type V = V;

    /// The stored values as nested pairs, first added first: `(a, (b, (c, ())))` after `a`, `b`
    /// and `c` were added to an empty bag.
    closed spec fn view(&self) -> V {
        self.v
    }
}

/// Creates a new, empty `BorrowBag`.
pub fn new_borrow_bag() -> (bag: BorrowBag<()>)
    ensures
        bag@ == (),
{
    BorrowBag { v: () }
}

impl<V> BorrowBag<V> {
    /// The value that `handle` stands for in this bag.
    pub open spec fn spec_borrow<T, N>(&self, handle: Handle<T, N>) -> T where V: Lookup<T, N> {
        Lookup::<T, N>::target(&self@)
    }

    /// Adds a value to the bag.
    ///
    /// The bag that comes back holds what `self` held, unmoved, and `t` behind it; the handle
    /// that comes back finds `t` there.
    pub fn add<T>(self, t: T) -> (out: (
        BorrowBag<<V as Append<T>>::Output>,
        Handle<T, <V as Append<T>>::Navigator>,
    )) where V: Append<T>
        ensures
            out.0@ == self@.appended(t),
            out.0@.prefixed_with(&self@),
            out.0.spec_borrow(out.1) == t,
    {
        proof {
            self.v.lemma_appended(t);
        }
        let (v, handle) = Append::append(self.v, t);
        (BorrowBag { v }, handle)
    }

    /// Borrows a value previously added to the bag.
    pub fn borrow<T, N>(&self, handle: Handle<T, N>) -> (found: &T) where V: Lookup<T, N>
        ensures
            *found == self.spec_borrow(handle),
    {
        let _ = handle;
        Lookup::<T, N>::get_from(&self.v)
    }
}

/// A value that was added is found by its handle in the bag that `add` returned and in every
/// bag that grew out of that one, however many values were added since.
///
/// "Grew out of" is `prefixed_with`: it holds of a bag and itself (`PrefixReflexive`), and one
/// more `add` keeps it (`lemma_add_keeps_prefix`).
pub proof fn lemma_borrow_after_adds<V, T, W>(
    bag: BorrowBag<V>,
    t: T,
    later: BorrowBag<W>,
    handle: Handle<T, <V as Append<T>>::Navigator>,
) where V: Append<T>, W: StableLookup<T, <V as Append<T>>::Navigator, <V as Append<T>>::Output>
    requires
        later@.prefixed_with(&bag@.appended(t)),
    ensures
        later.spec_borrow(handle) == t,
{
    bag@.lemma_appended(t);
    later@.lemma_lookup_stable(&bag@.appended(t));
}

/// A bag that has `old` as a prefix still has it after one more `add`.
pub proof fn lemma_add_keeps_prefix<W, V, T>(old: BorrowBag<W>, bag: BorrowBag<V>, t: T) where
    V: Append<T> + PrefixedWith<W>,
    <V as Append<T>>::Output: PrefixTransitive<V, W>,

    requires
        bag@.prefixed_with(&old@),
    ensures
        bag@.appended(t).prefixed_with(&old@),
{
    bag@.lemma_appended(t);
    bag@.appended(t).lemma_prefix_transitive(&bag@, &old@);
}

/// Values of three types, added in turn, each come back by their own handle.
///
/// The types need not differ: two values of one type get handles of two types, and each handle
/// finds its own value.
pub proof fn lemma_borrow_each_of_three<V, A, B, C, V1, V2, V3, NA, NB, NC>(
    bag: BorrowBag<V>,
    a: A,
    b: B,
    c: C,
    full: BorrowBag<V3>,
    first: Handle<A, NA>,
    second: Handle<B, NB>,
    third: Handle<C, NC>,
) where
    V: Append<A, Output = V1, Navigator = NA>,
    V1: Append<B, Output = V2, Navigator = NB> + Lookup<A, NA>,
    V2: Append<C, Output = V3, Navigator = NC> + StableLookup<A, NA, V1> + Lookup<B, NB>,
    V3: StableLookup<A, NA, V2> + StableLookup<B, NB, V2> + Lookup<C, NC>,

    requires
        full@ == bag@.appended(a).appended(b).appended(c),
    ensures
        full.spec_borrow(first) == a,
        full.spec_borrow(second) == b,
        full.spec_borrow(third) == c,
{
    let one = bag@.appended(a);
    let two = one.appended(b);
    bag@.lemma_appended(a);
    one.lemma_appended(b);
    two.lemma_appended(c);
    StableLookup::<A, NA, V1>::lemma_lookup_stable(&two, &one);
    StableLookup::<A, NA, V2>::lemma_lookup_stable(&full@, &two);
    StableLookup::<B, NB, V2>::lemma_lookup_stable(&full@, &two);
}

/// Adding a value changes nothing that a handle issued before finds.
pub proof fn lemma_add_keeps_borrow<V, T, U, N>(
    bag: BorrowBag<V>,
    t: T,
    grown: BorrowBag<<V as Append<T>>::Output>,
    earlier: Handle<U, N>,
) where V: Append<T> + Lookup<U, N>, <V as Append<T>>::Output: StableLookup<U, N, V>
    requires
        grown@ == bag@.appended(t),
    ensures
        grown.spec_borrow(earlier) == bag.spec_borrow(earlier),
{
    bag@.lemma_appended(t);
    grown@.lemma_lookup_stable(&bag@);
}

/// Borrowing consumes nothing: a bag answers a handle and any copy of it with the same value.
pub proof fn lemma_borrow_repeatable<V, T, N>(
    bag: BorrowBag<V>,
    first: Handle<T, N>,
    second: Handle<T, N>,
) where V: Lookup<T, N>
    ensures
        bag.spec_borrow(first) == bag.spec_borrow(second),
{
}

} // verus!

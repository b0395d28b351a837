//! Navigator markers, and the handle that carries a navigator in its type.
//!
//! A navigator is a type, never a value: `Take` leads to the head of a container, `(Skip, N)`
//! leads to wherever `N` leads in the tail. So the navigator to the element at position `k` is
//! `k` nested `Skip` markers around one `Take`.

use std::marker::PhantomData;
use vstd::prelude::*;

verus! {

/// Navigator marker: the target is not the head, go on into the tail.
pub struct Skip;

/// Navigator marker: the target is the head.
pub struct Take;

/// A zero-sized token for the value of type `T` that the navigator `N` leads to.
///
/// `BorrowBag::add` returns one, and `BorrowBag::borrow` takes it to find the value again.
pub struct Handle<T, N> {
    phantom: PhantomData<(T, N)>,
}

/// The handle of type `Handle<T, N>`. What a handle says, its type says: there is no other
/// value, see `lemma_handle_unique`.
pub closed spec fn spec_new_handle<T, N>() -> Handle<T, N> {
    Handle { phantom: PhantomData }
}

/// Creates a new `Handle` of any given type.
pub fn new_handle<T, N>() -> (handle: Handle<T, N>)
    ensures
        handle == spec_new_handle::<T, N>(),
{
    Handle { phantom: PhantomData }
}

/// A handle carries no data: any two handles of one type are equal.
pub proof fn lemma_handle_unique<T, N>(a: Handle<T, N>, b: Handle<T, N>)
    ensures
        a == b,
{
}

impl<T, N> Clone for Handle<T, N> {
    fn clone(&self) -> (copy: Handle<T, N>)
        ensures
            copy == *self,
    {
        new_handle()
    }
}

impl<T, N> Copy for Handle<T, N> {

}

} // verus!

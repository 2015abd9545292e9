//! Extension traits that let callers reach the escape/reclaim primitives
//! as methods on the standard owning types themselves.

use vstd::prelude::*;

use crate::mem_intern::Handle;
use crate::mem_intern::leak_as_nonnull;
use crate::mem_intern::reclaim_as_boxed;

verus! {

/// Escape and reclaim, as methods on an owning allocation.
pub trait BoxedExt<T>: Sized {
    /// The value the allocation owns.
    spec fn contents(&self) -> T;

    /// Escape this allocation into a bare handle, cancelling its
    /// automatic destruction. Zero-copy.
    fn leak_as_nonnull(self) -> (h: Handle<T>)
        ensures
            h.value() == self.contents(),
    ;

    /// Reclaim a previously escaped handle back into an owning
    /// allocation over the same storage. Consumes the handle.
    fn reclaim(h: Handle<T>) -> (s: Self)
        ensures
            s.contents() == h.value(),
    ;
}

impl<T> BoxedExt<T> for Box<T> {
    open spec fn contents(&self) -> T {
        **self
    }

    fn leak_as_nonnull(self) -> (h: Handle<T>) {
        leak_as_nonnull(self)
    }

    fn reclaim(h: Handle<T>) -> (s: Self) {
        reclaim_as_boxed(h)
    }
}

/// Relies on `Vec::into_boxed_slice`: the boxed slice holds exactly the
/// vector's elements, in order.
#[verifier::external_body]
fn vec_into_boxed_slice<T>(v: Vec<T>) -> (b: Box<[T]>)
    ensures
        b@ == v@,
{
    v.into_boxed_slice()
}

/// Escaping a vector's storage into a handle over its element slice.
pub trait VecExt<T>: Sized {
    /// The elements the vector holds.
    spec fn elems(&self) -> Seq<T>;

    /// Convert the vector into an escaped slice allocation: the handle's
    /// referent owns the elements, and nothing is destroyed until the
    /// handle is reclaimed.
    fn into_slice_ptr(self) -> (h: Handle<Box<[T]>>)
        ensures
            h.value()@ == self.elems(),
    ;
}

impl<T> VecExt<T> for Vec<T> {
    open spec fn elems(&self) -> Seq<T> {
        self@
    }

    fn into_slice_ptr(self) -> (h: Handle<Box<[T]>>) {
        crate::mem_intern::move_to_heap(vec_into_boxed_slice(self))
    }
}

} // verus!

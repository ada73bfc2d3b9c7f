//! An address that is known not to be zero.

use core::marker::PhantomData;
use vstd::prelude::*;

verus! {

/// The address of a `T`, never zero. It stands for the place only: copying
/// it copies no value, and dropping it drops none.
pub struct Unique<T: ?Sized> {
    pointer: usize,
    _marker: PhantomData<T>,
}

impl<T: ?Sized> View for Unique<T> {
    type V = usize;

    closed spec fn view(&self) -> usize {
        self.pointer
    }
}

impl<T: ?Sized> Unique<T> {
    #[verifier::type_invariant]
    spec fn non_null(self) -> bool {
        self.pointer != 0
    }

    /// Wraps an address that the caller knows not to be zero.
    pub fn new_unchecked(ptr: usize) -> (r: Self)
        requires
            ptr != 0,
        ensures
            r@ == ptr,
    {
        Unique { pointer: ptr, _marker: PhantomData }
    }

    /// The address, which is not zero.
    pub fn as_ptr(self) -> (r: usize)
        ensures
            r == self@,
            r != 0,
    {
        proof {
            use_type_invariant(&self);
        }
        self.pointer
    }
}

impl<T: ?Sized> Clone for Unique<T> {
    fn clone(&self) -> (r: Self)
        ensures
            r@ == self@,
    {
        proof {
            use_type_invariant(self);
        }
        Unique { pointer: self.pointer, _marker: PhantomData }
    }
}

impl<T: ?Sized> Copy for Unique<T> {
}

} // verus!

//! The owning handle for a value placed in an arena.
//!
//! A handle is the one owner of its value: it lends the value out for
//! reading and writing, compares, orders and hashes as the value does, and
//! drops the value when it is dropped itself. It also knows the address at
//! which the arena placed the value, which is its identity. The handle keeps
//! the value behind an indirection of its own, so that a value may in turn
//! own handles to values of its own type.

use crate::unique::Unique;
use core::cmp::Ordering;
use core::hash::Hash;
use core::hash::Hasher;
use core::mem::ManuallyDrop;
use core::ops::Deref;
use core::ops::DerefMut;
use vstd::std_specs::cmp::OrdSpec;
use vstd::std_specs::iter::IteratorSpec;
use vstd::std_specs::cmp::PartialEqSpec;
use vstd::std_specs::cmp::PartialEqSpecImpl;
use vstd::std_specs::cmp::PartialOrdSpec;
use vstd::std_specs::cmp::PartialOrdSpecImpl;
use vstd::prelude::*;
use vstd::string::to_string_from_display_ensures;

verus! {

/// A value together with the address at which an arena placed it, with no
/// promise that the value will ever be dropped: dropping a `Raw` drops
/// nothing. It is what a handle turns into when its owner takes the
/// pointee's fate into their own hands.
pub struct Raw<T> {
    pointer: Unique<T>,
    pointee: ManuallyDrop<Box<T>>,
}

impl<T> Raw<T> {
    /// The address of the place.
    pub closed spec fn address(&self) -> usize {
        self.pointer@
    }

    /// The value at the place.
    pub closed spec fn value(&self) -> T {
        *self.pointee@
    }

    /// Writes `x` to the place at `pointer`.
    pub fn new(pointer: Unique<T>, x: T) -> (r: Self)
        ensures
            r.address() == pointer@,
            r.value() == x,
    {
        Raw { pointer, pointee: ManuallyDrop::new(Box::new(x)) }
    }

    /// The address of the place, which is not zero.
    pub fn as_ptr(&self) -> (r: usize)
        ensures
            r == self.address(),
            r != 0,
    {
        self.pointer.as_ptr()
    }
}

/// The sole owner of a value that an arena placed. It reads and writes as
/// the value does, and the value is dropped with it, once.
pub struct ArenaBox<T> {
    value: Unique<T>,
    pointee: Box<T>,
}

impl<T> View for ArenaBox<T> {
    type V = T;

    closed spec fn view(&self) -> T {
        *self.pointee
    }
}

impl<T> ArenaBox<T> {
    /// The address at which the arena placed the value.
    pub closed spec fn address(&self) -> usize {
        self.value@
    }

    /// The address at which the arena placed the value. It is not zero, and
    /// stays the same for as long as the handle lives.
    pub fn as_ptr(&self) -> (r: usize)
        ensures
            r == self.address(),
            r != 0,
    {
        self.value.as_ptr()
    }

    /// Orders two handles as the values they own are ordered.
    pub fn cmp(&self, other: &ArenaBox<T>) -> (r: Ordering) where T: Ord
        ensures
            T::obeys_cmp_spec() ==> r == self@.cmp_spec(&other@),
    {
        Ord::cmp(&*self.pointee, &*other.pointee)
    }

    /// Takes over the value at a place. From here on the value is dropped
    /// when the handle is.
    pub fn from_raw(raw: Raw<T>) -> (r: Self)
        ensures
            r.address() == raw.address(),
            r@ == raw.value(),
    {
        ArenaBox { value: raw.pointer, pointee: ManuallyDrop::into_inner(raw.pointee) }
    }

    /// Gives the value and its place up to the caller. The handle is gone,
    /// and nothing drops the value until `from_raw` takes it over again.
    pub fn into_raw(b: ArenaBox<T>) -> (r: Raw<T>)
        ensures
            r.address() == b.address(),
            r.value() == b@,
    {
        Raw { pointer: b.value, pointee: ManuallyDrop::new(b.pointee) }
    }
}

impl<T> Deref for ArenaBox<T> {
    type Target = T;

    /// The value, read in place.
    fn deref(&self) -> (r: &T)
        ensures
            *r == self@,
    {
        &*self.pointee
    }
}

impl<T> DerefMut for ArenaBox<T> {
    /// The value, to be written in place: what the caller leaves there is
    /// what the handle owns afterwards, at the same address.
    fn deref_mut(&mut self) -> (r: &mut T)
        ensures
            *r == old(self)@,
            final(self)@ == *final(r),
            final(self).address() == old(self).address(),
    {
        &mut *self.pointee
    }
}

impl<T: PartialEq> PartialEq for ArenaBox<T> {
    fn eq(&self, other: &ArenaBox<T>) -> (r: bool) {
        PartialEq::eq(&*self.pointee, &*other.pointee)
    }

    fn ne(&self, other: &ArenaBox<T>) -> (r: bool) {
        PartialEq::ne(&*self.pointee, &*other.pointee)
    }
}

impl<T: PartialEq> PartialEqSpecImpl for ArenaBox<T> {
    open spec fn obeys_eq_spec() -> bool {
        T::obeys_eq_spec()
    }

    /// Two handles are equal where the values they own are, wherever those
    /// were placed.
    open spec fn eq_spec(&self, other: &ArenaBox<T>) -> bool {
        self@.eq_spec(&other@)
    }
}

impl<T: Eq> Eq for ArenaBox<T> {
}

impl<T: PartialOrd> PartialOrd for ArenaBox<T> {
    fn partial_cmp(&self, other: &ArenaBox<T>) -> (r: Option<Ordering>) {
        PartialOrd::partial_cmp(&*self.pointee, &*other.pointee)
    }

    fn lt(&self, other: &ArenaBox<T>) -> (r: bool) {
        PartialOrd::lt(&*self.pointee, &*other.pointee)
    }

    fn le(&self, other: &ArenaBox<T>) -> (r: bool) {
        PartialOrd::le(&*self.pointee, &*other.pointee)
    }

    fn ge(&self, other: &ArenaBox<T>) -> (r: bool) {
        PartialOrd::ge(&*self.pointee, &*other.pointee)
    }

    fn gt(&self, other: &ArenaBox<T>) -> (r: bool) {
        PartialOrd::gt(&*self.pointee, &*other.pointee)
    }
}

impl<T: PartialOrd> PartialOrdSpecImpl for ArenaBox<T> {
    open spec fn obeys_partial_cmp_spec() -> bool {
        T::obeys_partial_cmp_spec()
    }

    /// Two handles are ordered as the values they own are.
    open spec fn partial_cmp_spec(&self, other: &ArenaBox<T>) -> Option<Ordering> {
        self@.partial_cmp_spec(&other@)
    }
}

impl<T> AsRef<T> for ArenaBox<T> {
    fn as_ref(&self) -> (r: &T)
        ensures
            *r == self@,
    {
        &*self.pointee
    }
}

impl<T> AsMut<T> for ArenaBox<T> {
    fn as_mut(&mut self) -> (r: &mut T)
        ensures
            *r == old(self)@,
            final(self)@ == *final(r),
            final(self).address() == old(self).address(),
    {
        &mut *self.pointee
    }
}

impl<T> core::borrow::Borrow<T> for ArenaBox<T> {
    /// The value, read in place.
    fn borrow(&self) -> &T
        returns
            &self@,
    {
        &*self.pointee
    }
}

impl<T> ArenaBox<T> {
    /// The value, to be written in place: what the caller leaves there is
    /// what the handle owns afterwards, at the same address.
    pub fn borrow_mut(&mut self) -> (r: &mut T)
        ensures
            *r == old(self)@,
            final(self)@ == *final(r),
            final(self).address() == old(self).address(),
    {
        &mut *self.pointee
    }
}

impl<T: core::fmt::Display> ArenaBox<T> {
    /// The text that the value displays as.
    pub fn to_string(&self) -> (r: String)
        ensures
            to_string_from_display_ensures::<T>(&self@, r),
    {
        (*self.pointee).to_string()
    }
}

/// Calls `core::hash::Hash::hash` of `T` on `value`, which feeds the value
/// to `state`. Nothing is claimed of what the hasher holds afterwards.
#[verifier::external_body]
fn hash_value<T: Hash, H: Hasher>(value: &T, state: &mut H) {
    value.hash(state)
}

impl<T: Hash> Hash for ArenaBox<T> {
    /// A handle hashes as the value it owns does.
    fn hash<H: Hasher>(&self, state: &mut H) {
        hash_value(&*self.pointee, state)
    }
}

impl<I: Iterator> ArenaBox<I> {
    /// The next item of the iterator that the handle owns: the iterator
    /// moves on in place, as it would on its own.
    pub fn next(&mut self) -> (ret: Option<I::Item>)
        ensures
            final(self).address() == old(self).address(),
            final(self)@.obeys_prophetic_iter_laws() == old(self)@.obeys_prophetic_iter_laws(),
            final(self)@.obeys_prophetic_iter_laws() ==> (if old(self)@.remaining().len() > 0 {
                &&& final(self)@.remaining() == old(self)@.remaining().drop_first()
                &&& ret == Some(old(self)@.remaining()[0])
            } else {
                &&& final(self)@.remaining() == old(self)@.remaining()
                &&& ret.is_none()
            }),
    {
        Iterator::next(&mut *self.pointee)
    }
}

impl<I: DoubleEndedIterator> ArenaBox<I> {
    /// The last item of the iterator that the handle owns: the iterator
    /// gives it up in place, as it would on its own.
    pub fn next_back(&mut self) -> (ret: Option<I::Item>)
        ensures
            final(self).address() == old(self).address(),
            final(self)@.obeys_prophetic_iter_laws() == old(self)@.obeys_prophetic_iter_laws(),
            final(self)@.obeys_prophetic_iter_laws() ==> (if old(self)@.remaining().len() > 0 {
                &&& final(self)@.remaining() == old(self)@.remaining().drop_last()
                &&& ret == Some(old(self)@.remaining().last())
            } else {
                &&& final(self)@.remaining() == old(self)@.remaining()
                &&& ret.is_none()
            }),
    {
        DoubleEndedIterator::next_back(&mut *self.pointee)
    }
}

} // verus!

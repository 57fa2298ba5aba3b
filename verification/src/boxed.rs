//! `MyBox<T>`: an exclusive-ownership handle over one heap-allocated value.
//!
//! The box owns construction, access and destruction of exactly one value of
//! type `T`. Ownership moves with the handle: constructing, transferring, or
//! converting a box consumes it, so two live handles over the same value can
//! never coexist. A consumed box runs no destructor and releases no memory;
//! a live box, when dropped, runs the value's destructor first and then
//! releases the backing storage, exactly once.

use vstd::prelude::*;
use core::mem::ManuallyDrop;

verus! {

/// Exclusive owner of one heap-allocated value of type `T`.
///
/// Because the value is held behind an ordinary owned heap cell, the box is
/// transferable to another worker exactly when `T` is, and safe to share for
/// concurrent reads exactly when `T` is: the wrapper adds no capability `T`
/// lacks and withholds none `T` has.
pub struct MyBox<T> {
    inner: Box<T>,
}

impl<T> MyBox<T> {
    /// The owned value, as seen by contracts.
    pub closed spec fn value(self) -> T {
        *self.inner
    }

    /// Places `data` on the heap and returns its exclusive owner.
    pub fn new(data: T) -> (b: MyBox<T>)
        ensures
            b.value() == data,
    {
        MyBox { inner: Box::new(data) }
    }

    /// Moves the owned value out and releases the backing storage. The box
    /// is consumed: it runs no destructor of its own afterwards, and
    /// responsibility for destructing the value passes to the caller with
    /// the returned value.
    pub fn into_inner(self) -> (data: T)
        ensures
            data == self.value(),
    {
        *self.inner
    }

    /// Borrows the owned value.
    pub fn deref(&self) -> (r: &T)
        ensures
            *r == self.value(),
    {
        &*self.inner
    }

    /// Borrows the owned value for writing.
    pub fn deref_mut(&mut self) -> (r: &mut T)
        ensures
            *r == old(self).value(),
            final(self).value() == *final(r),
    {
        &mut *self.inner
    }

    /// Consumes the box into a raw handle without destructing the value or
    /// releasing its storage: ownership leaves this abstraction, and the
    /// disarmed wrapper will never run its teardown.
    pub fn into_raw(self) -> (h: RawHandle<T>)
        ensures
            h.value() == self.value(),
    {
        RawHandle { inner: ManuallyDrop::new(self.inner) }
    }

    /// Re-wraps a raw handle into an owning box. The handle must carry the
    /// sole ownership of its value, which here the handle itself
    /// guarantees; across a foreign boundary that guarantee is the
    /// caller's obligation.
    pub fn from_raw(h: RawHandle<T>) -> (b: MyBox<T>)
        ensures
            b.value() == h.value(),
    {
        MyBox { inner: ManuallyDrop::into_inner(h.inner) }
    }
}

impl<T: Clone> Clone for MyBox<T> {
    /// A new, independently owned box holding a duplicate of the current
    /// value; it never aliases the original's storage, and the original
    /// remains live and untouched.
    fn clone(&self) -> (b: Self)
        ensures
            vstd::pervasive::cloned::<T>(self.value(), b.value()),
    {
        MyBox::new(self.deref().clone())
    }
}

/// The bare form of an owning box while ownership is outside this
/// abstraction, as across a foreign boundary: it keeps the heap cell alive
/// but is inert. Dropping a raw handle runs no destructor and releases no
/// memory (the value is leaked, as a forgotten address would be); only
/// `MyBox::from_raw` re-arms cleanup.
pub struct RawHandle<T> {
    inner: ManuallyDrop<Box<T>>,
}

impl<T> RawHandle<T> {
    /// The value the handle's address refers to, as seen by contracts.
    pub closed spec fn value(self) -> T {
        *self.inner@
    }
}

/// Round trip across the raw boundary: for every value, wrapping it,
/// converting the box to a raw handle, and re-wrapping the handle yields a
/// box that owns that same value.
pub fn raw_round_trip<T>(data: T) -> (b: MyBox<T>)
    ensures
        b.value() == data,
{
    MyBox::from_raw(MyBox::new(data).into_raw())
}

} // verus!

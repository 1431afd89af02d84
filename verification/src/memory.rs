//! The pinned DMA memory primitive.
//!
//! Memory shared with the controller must keep its address for its whole
//! lifetime, because the only thing ever handed to the hardware is the raw
//! physical address. [`IoBox`] wraps a heap allocation that is never moved
//! once built: the value lives behind one fixed box, writes go through the
//! box in place, and nothing ever swaps the allocation out.

use vstd::prelude::*;

verus! {

/// The page-aligned block an [`IoBox`] allocates: the payload plus the
/// marker that pins it in place on the machine.
pub struct IoBoxInner<T> {
    data: T,
}

impl<T> View for IoBoxInner<T> {
    type V = T;

    closed spec fn view(&self) -> T {
        self.data
    }
}

impl<T> IoBoxInner<T> {
    /// Wrap a payload.
    pub fn new(data: T) -> (r: Self)
        ensures
            r@ == data,
    {
        IoBoxInner { data }
    }
}

/// A heap allocation whose address is fixed for the owner's lifetime, so
/// that its physical address may be published to the hardware. Mutable
/// access goes through [`IoBox::set`] in place; the allocation itself is
/// never replaced, and the hardware holds an independent reference to it
/// through the raw address.
pub struct IoBox<T> {
    inner: Box<IoBoxInner<T>>,
}

impl<T> View for IoBox<T> {
    type V = T;

    closed spec fn view(&self) -> T {
        self.inner@
    }
}

impl<T> IoBox<T> {
    /// Allocate a pinned block holding `data`.
    pub fn new(data: T) -> (r: Self)
        ensures
            r@ == data,
    {
        IoBox { inner: Box::new(IoBoxInner::new(data)) }
    }

    /// Read access to the pinned value.
    pub fn as_ref(&self) -> (r: &T)
        ensures
            *r == self@,
    {
        &self.inner.data
    }

    /// Overwrite the pinned value in place; the allocation, and with it
    /// the address the hardware may hold, stays the same.
    pub fn set(&mut self, data: T)
        ensures
            final(self)@ == data,
    {
        self.inner.data = data;
    }
}

} // verus!

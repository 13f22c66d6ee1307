//! Shared, read-only ownership of one sniffed payload, so that several
//! concurrent connection attempts can replay the same bytes without copying
//! and without any attempt gaining mutable access.

use vstd::prelude::*;
use std::rc::Rc;

verus! {

/// Relies on std's `Rc`: `Clone::clone` only increments the reference count
/// and hands back a handle to the very same shared value.
#[verifier::external_body]
fn rc_clone<T>(rc: &Rc<T>) -> (r: Rc<T>)
    ensures
        r == **rc,
{
    Rc::clone(rc)
}

/// Relies on std's `Rc`: dereferencing borrows the shared value itself.
#[verifier::external_body]
fn rc_as_ref<T>(rc: &Rc<T>) -> (r: &T)
    ensures
        *r == **rc,
{
    &**rc
}

/// A reference-counted, immutable holder for a heap-allocated value.
/// Cloning is cheap and yields another handle to the identical value;
/// only read access is ever exposed.
#[derive(Debug)]
pub struct RcBox<T> {
    item: Rc<T>,
}

impl<T> RcBox<T> {
    /// The shared value all handles read.
    pub closed spec fn value(&self) -> T {
        *self.item
    }

    pub fn new(item: T) -> (r: Self)
        ensures
            r.value() == item,
    {
        RcBox { item: Rc::new(item) }
    }

    /// Read access to the shared value; never a copy.
    pub fn as_ref(&self) -> (r: &T)
        ensures
            *r == self.value(),
    {
        rc_as_ref(&self.item)
    }
}

impl<T> Clone for RcBox<T> {
    /// Every clone reads the identical shared value.
    fn clone(&self) -> (r: Self)
        ensures
            r.value() == self.value(),
    {
        RcBox { item: rc_clone(&self.item) }
    }
}

} // verus!

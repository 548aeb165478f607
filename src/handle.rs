//! The reference-counted handle.
use std::sync::Arc;
use vstd::prelude::*;

verus! {

/// A shared handle to an immutable object.
///
/// Each live handle holds one unit of the object's strong count, and every
/// handle that aliases the object observes the same value: the object is
/// never changed after it was wrapped. The count is atomic, so handles may be
/// sent to and shared between threads whenever the object itself may.
#[derive(Debug)]
pub struct RCHandle<T> {
    inner: Arc<T>,
}

impl<T> RCHandle<T> {
    /// The object that the handle refers to.
    pub closed spec fn spec_native(&self) -> T {
        *self.inner
    }

    /// Wraps `native` in a new handle, which holds the only unit of its count.
    pub fn from_native(native: T) -> (r: Self)
        ensures
            r.spec_native() == native,
    {
        RCHandle { inner: Arc::new(native) }
    }

    /// Read access to the object.
    pub fn native(&self) -> (r: &T)
        ensures
            *r == self.spec_native(),
    {
        &*self.inner
    }

    /// Whether this handle is the only one that refers to its object.
    ///
    /// Other handles may be cloned or dropped concurrently, so the answer
    /// describes one moment only.
    pub fn is_unique(&self) -> (r: bool) {
        is_sole_count(strong_count(&self.inner))
    }
}

/// Whether a strong count of `count` means that one handle alone holds the
/// object.
pub fn is_sole_count(count: usize) -> (r: bool)
    ensures
        r == (count == 1),
{
    count == 1
}

impl<T> Clone for RCHandle<T> {
    /// A new handle to the same object, holding a unit of its own.
    fn clone(&self) -> (r: Self)
        ensures
            r.spec_native() == self.spec_native(),
    {
        RCHandle { inner: arc_clone(&self.inner) }
    }
}

impl<T: View> View for RCHandle<T> {
    type V = T::V;

    open spec fn view(&self) -> T::V {
        self.spec_native().view()
    }
}

/// Relies on `Arc::clone`: it makes another pointer to the same allocation,
/// so the value behind it is the same.
#[verifier::external_body]
fn arc_clone<T>(a: &Arc<T>) -> (r: Arc<T>)
    ensures
        *r == **a,
{
    Arc::clone(a)
}

/// Relies on `Arc::strong_count`: the number of strong pointers to the
/// allocation, of which `a` is one.
#[verifier::external_body]
fn strong_count<T>(a: &Arc<T>) -> (r: usize)
    ensures
        r >= 1,
{
    Arc::strong_count(a)
}

} // verus!

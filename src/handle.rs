use vstd::prelude::*;

use std::sync::Arc;

verus! {

/// An opaque, reference-counted handle on one native resource. Every clone
/// refers to the same resource, which is released when the last clone is dropped.
pub struct Handle<T> {
    cell: Arc<T>,
}

/// Relies on Arc::clone: a new pointer to the same allocation, with the count
/// of strong references raised by one.
#[verifier::external_body]
fn share<T>(a: &Arc<T>) -> (r: Arc<T>)
    ensures
        r == *a,
{
    Arc::clone(a)
}

impl<T> View for Handle<T> {
    type V = T;

    /// The resource that the handle refers to.
    closed spec fn view(&self) -> T {
        *self.cell
    }
}

impl<T> Handle<T> {
    /// Takes ownership of a resource and hands out the first handle on it.
    pub fn wrap(resource: T) -> (r: Handle<T>)
        ensures
            r@ == resource,
    {
        Handle { cell: Arc::new(resource) }
    }

    /// The resource behind the handle.
    pub fn resource(&self) -> (r: &T)
        ensures
            *r == self@,
    {
        &*self.cell
    }
}

impl<T> Clone for Handle<T> {
    /// Another handle on the same resource.
    fn clone(&self) -> (r: Self)
        ensures
            r@ == self@,
    {
        Handle { cell: share(&self.cell) }
    }
}

} // verus!

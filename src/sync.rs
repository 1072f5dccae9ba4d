//! Values that may be shared across threads: their reference counts are atomic.
use std::sync::Arc;
use vstd::prelude::*;

use crate::ImplicitClone;

pub use crate::atomic_array::{IArray, Iter};
pub use crate::atomic_map::{IMap, IMapIter, IMapKeys, IMapValues};
pub use crate::atomic_string::IString;

verus! {

/// Relies on `Arc::clone`: a new handle to the same allocation.
#[verifier::external_body]
pub(crate) fn arc_clone<T: ?Sized>(arc: &Arc<T>) -> (r: Arc<T>)
    ensures
        r == *arc,
{
    Arc::clone(arc)
}

impl<T: ?Sized> ImplicitClone for Arc<T> {
    fn implicit_clone(&self) -> (r: Self) {
        arc_clone(self)
    }
}

/// A value of any size that is cheap to clone and may be shared across threads: either static
/// or held behind an atomic reference count.
#[derive(Debug, PartialEq, Eq, Hash)]
pub enum ISlice<T: 'static + ?Sized> {
    /// A static reference.
    Static(&'static T),
    /// An atomically reference counted value.
    Rc(Arc<T>),
}

impl<T: 'static + ?Sized> Clone for ISlice<T> {
    /// A copy of the handle; the value behind it is shared, never copied.
    fn clone(&self) -> (r: Self)
        ensures
            r == *self,
    {
        match self {
            ISlice::Static(x) => ISlice::Static(*x),
            ISlice::Rc(x) => ISlice::Rc(arc_clone(x)),
        }
    }
}

impl<T: 'static + ?Sized> ImplicitClone for ISlice<T> {
    fn implicit_clone(&self) -> (r: Self) {
        self.clone()
    }
}

} // verus!

//! The `map` combinator: changes the item of a future once it is ready.
use vstd::prelude::*;

use crate::fut::{Async, Poll};

verus! {

/// Future for the `map` combinator. It forwards each poll of the inner
/// future and applies `f` once, to the item that the inner future yields.
pub struct MapFuture<F> {
    f: Option<F>,
}

/// A `map` combinator that has not yet seen its inner future complete.
pub fn new<F>(f: F) -> (r: MapFuture<F>)
    ensures
        r.pending(),
        r.function() == f,
{
    MapFuture { f: Some(f) }
}

impl<F> MapFuture<F> {
    /// Whether the combinator still waits for its inner future.
    pub closed spec fn pending(&self) -> bool {
        self.f is Some
    }

    /// The function still to apply.
    pub closed spec fn function(&self) -> F {
        self.f.unwrap()
    }

    /// One poll, given what the poll of the inner future returned: not yet
    /// and errors pass through; a ready item is handed to `f` and its result
    /// is the combinator's item. Polling after completion is not allowed.
    pub fn poll<T, U, E>(&mut self, inner: Poll<T, E>) -> (r: Poll<U, E>)
        where
            F: FnOnce(T) -> U,
        requires
            old(self).pending(),
            inner matches Ok(Async::Ready(t)) ==> old(self).function().requires((t,)),
        ensures
            inner matches Ok(Async::NotReady) ==> r matches Ok(Async::NotReady) && *final(self) == *old(self),
            inner matches Err(e) ==> r == Err::<Async<U>, E>(e) && *final(self) == *old(self),
            inner matches Ok(Async::Ready(t)) ==> {
                &&& r matches Ok(Async::Ready(u)) && old(self).function().ensures((t,), u)
                &&& !final(self).pending()
            },
    {
        match inner {
            Ok(Async::NotReady) => Ok(Async::NotReady),
            Err(e) => Err(e),
            Ok(Async::Ready(t)) => {
                let f = self.f.take().unwrap();
                Ok(Async::Ready(f(t)))
            },
        }
    }
}

} // verus!

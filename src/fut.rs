//! Actor-aware futures: what one poll reports, and combinators over it.
use vstd::prelude::*;

pub mod map;

verus! {

/// What one poll of a future found: a value, or not yet.
#[derive(Debug)]
pub enum Async<T> {
    Ready(T),
    NotReady,
}

/// The result of one poll: a value, not yet, or the future's error.
pub type Poll<T, E> = Result<Async<T>, E>;

} // verus!

//! Whether a polled operation has come to a result.

use vstd::prelude::*;

verus! {

/// The outcome of polling something that may not be done yet.
#[derive(Debug, PartialEq, Eq, Structural)]
pub enum Async<T> {
    /// The operation is done and this is what it gave.
    Ready(T),
    /// Nothing yet: poll again when the operation signals progress.
    NotReady,
}

impl<T> Async<T> {
    /// Whether the operation is done.
    pub fn is_ready(&self) -> (b: bool)
        ensures
            b == (self is Ready),
    {
        match self {
            Async::Ready(_) => true,
            Async::NotReady => false,
        }
    }

    /// Whether the operation is still under way.
    pub fn is_not_ready(&self) -> (b: bool)
        ensures
            b == (self is NotReady),
    {
        !self.is_ready()
    }
}

} // verus!

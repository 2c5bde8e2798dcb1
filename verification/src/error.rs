//! The errors that cross the boundary of the channel core.

use vstd::prelude::*;

verus! {

/// What went wrong, as far as the channel core tells failures apart.
#[derive(Debug, Clone, Copy, PartialEq, Eq, Hash, Structural)]
pub enum ErrorKind {
    /// The peer marked a frame as erroneous.
    InvalidInput,
    /// The channel has no transport at the moment and does not buffer.
    Unavailable,
    /// The TCP connection could not be established.
    ConnectFailed,
    /// The established stream broke.
    StreamAborted,
    /// A frame handler could not decode an incoming message.
    DecodeError,
    /// Anything else, a broken timer included.
    Other,
}

/// A failure with its kind and, where one is known, a description of its cause.
#[derive(Debug, Clone, PartialEq, Eq)]
pub struct Error {
    pub kind: ErrorKind,
    pub cause: Option<String>,
}

impl Error {
    /// Whether this error has kind `kind` and is described by exactly `cause`.
    pub open spec fn is_caused_by(self, kind: ErrorKind, cause: Seq<char>) -> bool {
        &&& self.kind == kind
        &&& self.cause matches Some(text)
        &&& text@ == cause
    }

    /// An error of the given kind with no description.
    pub fn new(kind: ErrorKind) -> (e: Error)
        ensures
            e == (Error { kind, cause: None }),
    {
        Error { kind, cause: None }
    }

    /// An error of the given kind, described by `cause`.
    pub fn with_cause(kind: ErrorKind, cause: &str) -> (e: Error)
        ensures
            e.is_caused_by(kind, cause@),
    {
        Error { kind, cause: Some(cause.to_owned()) }
    }

    /// The kind of this error.
    pub fn kind(&self) -> (k: ErrorKind)
        ensures
            k == self.kind,
    {
        self.kind
    }
}

} // verus!

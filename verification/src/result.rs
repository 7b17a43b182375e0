//! Error taxonomy of the streaming executor.
//!
//! Every failure a caller can observe arrives through the stream's item type
//! as a value of [`OCLStreamError`]; the library never reports errors through
//! a side channel and never terminates the process on one.

use vstd::prelude::*;

verus! {

/// Errors that can arise while dispatching work or streaming results.
#[derive(Debug, Clone)]
pub enum OCLStreamError {
    /// The underlying device or runtime reported a failure; carries a
    /// human-readable description.
    OCLError(String),
    /// The channel is closed and holds no buffered items.  This is the normal
    /// end-of-stream condition observed by the consumer, not a task failure.
    RecvError,
    /// A producer attempted to deliver an item after the consumer was
    /// dropped.  Recoverable locally: the worker simply stops.
    SendError,
}

/// Result alias used throughout the library.
pub type OCLStreamResult<T> = Result<T, OCLStreamError>;

impl OCLStreamError {
    /// What equality of two errors means: same variant, and for backend
    /// errors the same description text.
    pub open spec fn same_error(self, other: Self) -> bool {
        match (self, other) {
            (OCLStreamError::OCLError(a), OCLStreamError::OCLError(b)) => a@ == b@,
            (OCLStreamError::RecvError, OCLStreamError::RecvError) => true,
            (OCLStreamError::SendError, OCLStreamError::SendError) => true,
            _ => false,
        }
    }

    /// True of the one variant that signals a closed, drained stream.
    pub open spec fn is_end_of_stream(self) -> bool {
        self is RecvError
    }
}

impl PartialEq for OCLStreamError {
    fn eq(&self, other: &Self) -> (r: bool)
        ensures
            r == self.same_error(*other),
    {
        match (self, other) {
            (OCLStreamError::OCLError(a), OCLStreamError::OCLError(b)) => *a == *b,
            (OCLStreamError::RecvError, OCLStreamError::RecvError) => true,
            (OCLStreamError::SendError, OCLStreamError::SendError) => true,
            _ => false,
        }
    }
}

impl vstd::std_specs::cmp::PartialEqSpecImpl for OCLStreamError {
    open spec fn obeys_eq_spec() -> bool {
        true
    }

    open spec fn eq_spec(&self, other: &Self) -> bool {
        self.same_error(*other)
    }
}

} // verus!

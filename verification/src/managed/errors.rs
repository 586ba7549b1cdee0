//! Errors of the managed pool.

use vstd::prelude::*;

verus! {

/// Possible errors of a managed pool checkout.
#[derive(Debug, PartialEq, Eq)]
pub enum PoolError<E> {
    /// A phase exceeded its configured deadline; the caller may retry.
    Timeout,
    /// The pool no longer accepts checkouts.
    Closed,
    /// A bounded wait was requested but no runtime was specified.
    NoRuntimeSpecified,
    /// The manager's own error, surfaced verbatim from `create`; the pool
    /// never interprets its contents.
    Backend(E),
}

impl<E> PoolError<E> {
    /// A short, fixed description of the error.
    pub fn describe(&self) -> (r: &'static str)
        ensures
            (self is Timeout) == (r
                == "Timeout occurred while waiting for an object to become available"),
            (self is Closed) == (r == "Pool has been closed"),
            (self is NoRuntimeSpecified) == (r == "No runtime specified"),
            (self is Backend) == (r == "Backend reported an error"),
    {
        match self {
            PoolError::Timeout => "Timeout occurred while waiting for an object to become available",
            PoolError::Closed => "Pool has been closed",
            PoolError::NoRuntimeSpecified => "No runtime specified",
            PoolError::Backend(_) => "Backend reported an error",
        }
    }
}

/// Verdict of a recycle step on an idle instance about to be handed out
/// again.  Any error here means the instance is unusable and is destroyed —
/// it is never surfaced to the caller directly, since the pool falls
/// through to creation.
#[derive(Debug, PartialEq, Eq)]
pub enum RecycleError<E> {
    /// The instance is unusable for an application-level reason.
    Message(String),
    /// The instance is unusable due to a backend error.
    Backend(E),
}

/// Result type of a recycle step.
pub type RecycleResult<E> = Result<(), RecycleError<E>>;

/// Error of building a pool from its configuration.
#[derive(Clone, Copy, Debug, PartialEq, Eq, Structural)]
pub enum BuildError {
    /// A phase deadline was configured, but no runtime to suspend under was
    /// given: a configuration error, caught at build time rather than at
    /// request time.
    NoRuntimeSpecified,
}

impl BuildError {
    /// A short, fixed description of the error.
    pub fn describe(&self) -> (r: &'static str)
        ensures
            r == "A timeout was configured but no runtime was specified",
    {
        "A timeout was configured but no runtime was specified"
    }
}

} // verus!

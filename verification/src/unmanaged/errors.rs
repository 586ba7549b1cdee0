//! Errors of the unmanaged pool variant.

use vstd::prelude::*;

verus! {

/// Possible errors of an unmanaged pool checkout.
#[derive(Clone, Copy, Debug, PartialEq, Eq, Structural)]
pub enum PoolError {
    /// Operation timeout happened.
    Timeout,
    /// The pool has been closed.
    Closed,
    /// A bounded wait was requested but no runtime was specified.
    NoRuntimeSpecified,
}

impl PoolError {
    /// A short, fixed description of the error.
    pub fn describe(&self) -> (r: &'static str)
        ensures
            (self is Timeout) == (r
                == "Timeout occurred while waiting for an object to become available"),
            (self is Closed) == (r == "Pool has been closed"),
            (self is NoRuntimeSpecified) == (r == "No runtime specified"),
    {
        match self {
            PoolError::Timeout => "Timeout occurred while waiting for an object to become available",
            PoolError::Closed => "Pool has been closed",
            PoolError::NoRuntimeSpecified => "No runtime specified",
        }
    }
}

} // verus!

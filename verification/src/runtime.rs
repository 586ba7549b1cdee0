//! Selection of an async executor, and the executor-agnostic offload
//! primitive that needs no suspension point.
//!
//! The pool itself never blocks a worker thread: waiting is driven by the
//! embedding, which races pool transitions against a deadline or offloads
//! blocking destructors.  The executor is a runtime value, not a
//! compile-time type, so the same pool type works across executors.

use vstd::prelude::*;

verus! {

/// Enumeration for picking a runtime implementation.
#[derive(Clone, Copy, Debug, PartialEq, Eq, Structural)]
pub enum Runtime {
    /// The `tokio` 1.x runtime.
    Tokio1,
    /// The `async-std` 1.x runtime.
    AsyncStd1,
    /// The `smol` 2.x family of runtime building blocks.
    Smol2,
}

/// What a checkout that found nothing available asks of its caller: how to
/// suspend before retrying.
#[derive(Clone, Copy, Debug, PartialEq, Eq, Structural)]
pub enum WaitDirective {
    /// Suspend under the given runtime for at most the remaining
    /// milliseconds of the wait deadline, then retry with the deadline
    /// that is then left (zero once it has elapsed).
    Bounded {
        /// The runtime to suspend under.
        runtime: Runtime,
        /// What remains of the wait deadline, in milliseconds.
        remaining_ms: u64,
    },
    /// Suspend until an object is returned, added or destroyed, then
    /// retry; an unbounded wait needs no runtime and never times out.
    Unbounded,
}

/// Error of spawning a task on a thread where blocking is acceptable.
#[derive(Debug, PartialEq, Eq)]
pub enum SpawnBlockingError {
    /// The spawned task has panicked; the payload's textual form, when one
    /// could be recovered, travels with it.
    Panic(String),
    /// The spawned task has been cancelled before completion.
    Cancelled,
}

impl SpawnBlockingError {
    /// A short, fixed description of the error.
    pub fn describe(&self) -> (r: &'static str)
        ensures
            (self is Panic) == (r == "spawned blocking task panicked"),
            (self is Cancelled) == (r == "spawned blocking task was cancelled"),
    {
        match self {
            SpawnBlockingError::Panic(_) => "spawned blocking task panicked",
            SpawnBlockingError::Cancelled => "spawned blocking task was cancelled",
        }
    }
}

/// Relies on `tokio::task::spawn_blocking`: runs the closure on the blocking
/// thread pool of the ambient tokio runtime; dropping the returned handle
/// detaches the task.  Must be called from within a tokio runtime context.
#[verifier::external_body]
fn spawn_blocking_background_tokio1<F: FnOnce() + Send + 'static>(f: F) {
    drop(tokio::task::spawn_blocking(f));
}

/// Relies on `async_std::task::spawn_blocking`: runs the closure on
/// async-std's blocking thread pool; dropping the returned handle detaches
/// the task.
#[verifier::external_body]
fn spawn_blocking_background_async_std1<F: FnOnce() + Send + 'static>(f: F) {
    drop(async_std::task::spawn_blocking(f));
}

/// Relies on `blocking::unblock`: schedules the closure on the shared
/// blocking thread pool; the returned task is detached, so the closure
/// runs to completion without anyone awaiting it.
#[verifier::external_body]
fn spawn_blocking_background_smol2<F: FnOnce() + Send + 'static>(f: F) {
    blocking::unblock(f).detach();
}

/// Runs the given closure on a thread where blocking is acceptable, without
/// awaiting its completion: a fire-and-forget offload, meant for deferred
/// cleanup such as closing a connection without blocking the caller.
pub fn spawn_blocking_background<F: FnOnce() + Send + 'static>(
    runtime: Runtime,
    f: F,
) -> (r: Result<(), SpawnBlockingError>)
    ensures
        r is Ok,
{
    match runtime {
        Runtime::Tokio1 => spawn_blocking_background_tokio1(f),
        Runtime::AsyncStd1 => spawn_blocking_background_async_std1(f),
        Runtime::Smol2 => spawn_blocking_background_smol2(f),
    }
    Ok(())
}

} // verus!

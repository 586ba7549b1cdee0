//! A verified, generic object pool.
//!
//! The pool bounds the number of concurrently live instances of an
//! expensive-to-create resource, reuses them across requests, validates them
//! before reuse, and recreates them transparently on failure.  Callers supply
//! a small capability contract — how to create and how to recycle an
//! instance — and the pool supplies admission control, lifecycle tracking,
//! timeout-bounded waiting and graceful shutdown.
//!
//! The engine is a sequential state machine: every pool operation is one
//! atomic transition taken under exclusive access, and an embedding that runs
//! the pool under an async executor performs the suspension between
//! transitions.  The [`runtime`] module names the supported executors and the
//! executor-agnostic primitives.

pub mod auth;
pub mod aws;
pub mod managed;
pub mod runtime;
pub mod unmanaged;
pub mod util;

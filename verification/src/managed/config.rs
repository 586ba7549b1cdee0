//! Configuration of the managed pool.

use vstd::prelude::*;

verus! {

/// Independently configurable deadlines, in milliseconds, for the three
/// phases of a checkout.  An unset deadline waits without bound.
///
/// The wait deadline governs the admission decision.  The create and
/// recycle deadlines bound the manager's own suspension and are enforced by
/// the embedding that awaits the manager under a runtime.
#[derive(Clone, Copy, Debug)]
pub struct Timeouts {
    /// Deadline for waiting for a permit.
    pub wait: Option<u64>,
    /// Deadline for the manager's create step.
    pub create: Option<u64>,
    /// Deadline for the manager's recycle step.
    pub recycle: Option<u64>,
}

impl Timeouts {
    /// No deadline on any phase.
    pub fn none() -> (r: Self)
        ensures
            r.wait is None,
            r.create is None,
            r.recycle is None,
    {
        Timeouts { wait: None, create: None, recycle: None }
    }

    /// Whether any phase has a deadline.
    pub fn any_set(&self) -> (r: bool)
        ensures
            r == (self.wait is Some || self.create is Some || self.recycle is Some),
    {
        self.wait.is_some() || self.create.is_some() || self.recycle.is_some()
    }
}

impl Default for Timeouts {
    /// No deadline on any phase.
    fn default() -> (r: Self)
        ensures
            r.wait is None,
            r.create is None,
            r.recycle is None,
    {
        Timeouts::none()
    }
}

/// Configuration of a managed pool.
#[derive(Clone, Copy, Debug)]
pub struct PoolConfig {
    /// Maximum number of objects that exist at any time.
    pub max_size: usize,
    /// Deadlines of the checkout phases.
    pub timeouts: Timeouts,
}

impl PoolConfig {
    /// A configuration with the given capacity and no deadlines.
    pub fn new(max_size: usize) -> (r: Self)
        ensures
            r.max_size == max_size,
            r.timeouts.wait is None,
            r.timeouts.create is None,
            r.timeouts.recycle is None,
    {
        PoolConfig { max_size, timeouts: Timeouts::none() }
    }
}

impl Default for PoolConfig {
    /// The default configuration: capacity of twice the CPU core count and
    /// no deadlines.
    fn default() -> (r: Self)
        ensures
            r.max_size >= 2,
            r.timeouts.wait is None,
            r.timeouts.create is None,
            r.timeouts.recycle is None,
    {
        PoolConfig {
            max_size: crate::util::get_default_pool_max_size(),
            timeouts: Timeouts::none(),
        }
    }
}

} // verus!

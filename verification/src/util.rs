//! Small helpers shared by the pool variants.

use vstd::prelude::*;

verus! {

/// Relies on `num_cpus::get`: the number of CPUs available to the current
/// process.  The result depends on the machine, so nothing is promised of
/// it.
#[verifier::external_body]
fn available_cpus() -> usize {
    num_cpus::get()
}

/// Relies on `std::time::SystemTime::now`: milliseconds between the Unix
/// epoch and now, saturated into a `u64`, and zero for a clock before the
/// epoch.  The result depends on the wall clock, so nothing is promised of
/// it.
#[verifier::external_body]
pub(crate) fn now_millis() -> u64 {
    match std::time::SystemTime::now().duration_since(std::time::UNIX_EPOCH) {
        Ok(d) => u64::try_from(d.as_millis()).unwrap_or(u64::MAX),
        Err(_) => 0,
    }
}

/// What remains of a wait deadline of `deadline_ms` milliseconds that
/// started at `start_ms`, read at `now_ms`: `None` once the deadline has
/// elapsed.  A clock reading before the start counts as no elapsed time.
pub open spec fn spec_remaining_deadline(start_ms: u64, now_ms: u64, deadline_ms: u64) -> Option<
    u64,
> {
    let elapsed = if now_ms >= start_ms {
        now_ms - start_ms
    } else {
        0
    };
    if elapsed >= deadline_ms {
        None
    } else {
        Some((deadline_ms - elapsed) as u64)
    }
}

/// Decides whether a bounded wait that started at `start_ms` with deadline
/// `deadline_ms` may go on at `now_ms`, and for how long: the deadline
/// still remaining, or `None` once it has elapsed.  An embedding that
/// suspends between checkout transitions re-enters the pool with the
/// remaining deadline (zero once this says the deadline elapsed, which
/// the pool turns into its timeout error).
pub fn remaining_deadline(start_ms: u64, now_ms: u64, deadline_ms: u64) -> (r: Option<u64>)
    ensures
        r == spec_remaining_deadline(start_ms, now_ms, deadline_ms),
{
    let elapsed = if now_ms >= start_ms {
        now_ms - start_ms
    } else {
        0
    };
    if elapsed >= deadline_ms {
        None
    } else {
        Some(deadline_ms - elapsed)
    }
}

/// The default pool capacity for a machine with the given CPU core count:
/// twice the count, floored at a count of one and saturated at the largest
/// representable size.
pub open spec fn spec_default_max_size(cpus: nat) -> nat {
    let c = if cpus == 0 {
        1 as nat
    } else {
        cpus
    };
    if 2 * c <= usize::MAX as nat {
        2 * c
    } else {
        usize::MAX as nat
    }
}

/// The executable twin of [`spec_default_max_size`].
pub fn default_max_size_for(cpus: usize) -> (r: usize)
    ensures
        r as nat == spec_default_max_size(cpus as nat),
        r >= 2,
{
    let cpus = if cpus == 0 {
        1
    } else {
        cpus
    };
    if cpus <= usize::MAX / 2 {
        cpus * 2
    } else {
        usize::MAX
    }
}

/// The default maximum size of a pool: twice the logical CPU core count
/// (and at least 2, whatever the CPU count turns out to be).
pub fn get_default_pool_max_size() -> (r: usize)
    ensures
        r >= 2,
{
    default_max_size_for(available_cpus())
}

} // verus!

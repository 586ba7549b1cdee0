//! The unmanaged pool variant.
//!
//! Objects are supplied up front by the caller — there is no create or
//! recycle step — and are simply cycled between an idle store and a
//! checked-out state under the same admission and timeout discipline as the
//! managed pool.  The idle store is a LIFO stack: a checkout takes the most
//! recently returned object.
//!
//! Every operation is one atomic transition of the pool's state.  A
//! checkout that finds nothing available does not fail: it reports
//! [`GetOutcome::Wait`] with a [`WaitDirective`], the embedding suspends
//! accordingly, and re-enters with the deadline still remaining (computed
//! by [`crate::util::remaining_deadline`]).  Only a deadline that has
//! elapsed — a remaining deadline of zero — resolves to
//! [`PoolError::Timeout`].

pub mod errors;

use vstd::prelude::*;

use crate::runtime::{Runtime, WaitDirective};
use crate::unmanaged::errors::PoolError;

verus! {

/// Configuration of an unmanaged pool.
#[derive(Clone, Copy, Debug)]
pub struct PoolConfig {
    /// Maximum number of objects managed by the pool.
    pub max_size: usize,
    /// Default deadline of a checkout wait, in milliseconds; `None` waits
    /// without bound.
    pub timeout: Option<u64>,
    /// The runtime under which bounded waits suspend.
    pub runtime: Option<Runtime>,
}

impl PoolConfig {
    /// A configuration with the given capacity, no default deadline and no
    /// runtime.
    pub fn new(max_size: usize) -> (r: Self)
        ensures
            r.max_size == max_size,
            r.timeout is None,
            r.runtime is None,
    {
        PoolConfig { max_size, timeout: None, runtime: None }
    }
}

impl Default for PoolConfig {
    /// The default configuration: capacity of twice the CPU core count, no
    /// deadline, no runtime.
    fn default() -> (r: Self)
        ensures
            r.max_size >= 2,
            r.timeout is None,
            r.runtime is None,
    {
        PoolConfig {
            max_size: crate::util::get_default_pool_max_size(),
            timeout: None,
            runtime: None,
        }
    }
}

/// Outcome of one checkout transition.
#[derive(Debug)]
pub enum GetOutcome<T> {
    /// An object was available and is now checked out by the caller.
    Ready(T),
    /// The checkout failed; the pool is unchanged.
    Fail(PoolError),
    /// Nothing is available: the caller must suspend as the directive
    /// says and then retry — with the remaining deadline for a bounded
    /// wait, unchanged for an unbounded one.
    Wait(WaitDirective),
}

/// The abstract state of an unmanaged pool.
#[verifier::ext_equal]
pub ghost struct PoolModel<T> {
    /// Idle objects, oldest first: a checkout pops the last element.
    pub idle: Seq<T>,
    /// Number of objects currently checked out.
    pub checked_out: nat,
    /// Capacity: the number of objects may never exceed it.
    pub max_size: nat,
    /// Whether the pool has been closed.
    pub closed: bool,
    /// The runtime under which bounded waits suspend.
    pub runtime: Option<Runtime>,
    /// Default deadline of a checkout wait, in milliseconds.
    pub timeout: Option<u64>,
}

impl<T> PoolModel<T> {
    /// Objects that exist: checked out plus idle.
    pub open spec fn size(self) -> int {
        self.idle.len() + self.checked_out as int
    }

    /// The pool's invariant: the number of live objects never exceeds the
    /// capacity, and a closed pool holds no idle objects.
    pub open spec fn inv(self) -> bool {
        &&& self.size() <= self.max_size
        &&& self.closed ==> self.idle.len() == 0
    }

    /// Whether a checkout would have to wait: nothing is idle.
    pub open spec fn exhausted(self) -> bool {
        self.idle.len() == 0
    }
}

/// Whether a deadline asks for a bounded, non-zero wait.
pub open spec fn bounded_wait(timeout: Option<u64>) -> bool {
    match timeout {
        Some(d) => d > 0,
        None => false,
    }
}

/// The transition of a successful checkout: the most recently returned idle
/// object moves to the checked-out state.
pub open spec fn spec_take<T>(m: PoolModel<T>) -> PoolModel<T> {
    PoolModel { idle: m.idle.drop_last(), checked_out: m.checked_out + 1, ..m }
}

/// The transition of a return to an open pool: the object joins the idle
/// store as its most recent element.
pub open spec fn spec_put_back<T>(m: PoolModel<T>, obj: T) -> PoolModel<T> {
    PoolModel { idle: m.idle.push(obj), checked_out: (m.checked_out - 1) as nat, ..m }
}

/// The transition of a return to a closed pool: the object is destroyed and
/// its capacity becomes vacant again.
pub open spec fn spec_discard<T>(m: PoolModel<T>) -> PoolModel<T> {
    PoolModel { checked_out: (m.checked_out - 1) as nat, ..m }
}

/// The transition of closing: the idle store is drained and destroyed, and
/// no further checkout succeeds.
pub open spec fn spec_close<T>(m: PoolModel<T>) -> PoolModel<T> {
    PoolModel { idle: Seq::<T>::empty(), closed: true, ..m }
}

/// What one checkout transition may do, for a given effective deadline:
/// exactly one case applies, decided by the pool's state.  Nothing
/// available and a deadline still remaining means waiting, not failing:
/// only an elapsed deadline — a remaining deadline of zero — times out.
pub open spec fn get_transition<T>(
    pre: PoolModel<T>,
    post: PoolModel<T>,
    r: GetOutcome<T>,
    timeout: Option<u64>,
) -> bool {
    if pre.closed {
        r == GetOutcome::<T>::Fail(PoolError::Closed) && post == pre
    } else if bounded_wait(timeout) && pre.runtime is None {
        r == GetOutcome::<T>::Fail(PoolError::NoRuntimeSpecified) && post == pre
    } else if !pre.exhausted() {
        r == GetOutcome::<T>::Ready(pre.idle.last()) && post == spec_take(pre)
    } else {
        post == pre && match timeout {
            Some(d) => if d == 0 {
                r == GetOutcome::<T>::Fail(PoolError::Timeout)
            } else {
                pre.runtime matches Some(rt) && r == GetOutcome::<T>::Wait(
                    WaitDirective::Bounded { runtime: rt, remaining_ms: d },
                )
            },
            None => r == GetOutcome::<T>::Wait(WaitDirective::Unbounded),
        }
    }
}

/// An unmanaged pool of externally constructed objects.
///
/// In the vocabulary of the admission discipline, every object that exists
/// holds one permit; `max_size` bounds the permits that can ever be handed
/// out, and an idle object's permit travels with it from the idle store to
/// the caller and back.
pub struct Pool<T> {
    idle: Vec<T>,
    checked_out: usize,
    max_size: usize,
    closed: bool,
    runtime: Option<Runtime>,
    timeout: Option<u64>,
}

impl<T> View for Pool<T> {
    type V = PoolModel<T>;

    closed spec fn view(&self) -> PoolModel<T> {
        PoolModel {
            idle: self.idle@,
            checked_out: self.checked_out as nat,
            max_size: self.max_size as nat,
            closed: self.closed,
            runtime: self.runtime,
            timeout: self.timeout,
        }
    }
}

impl<T> Default for Pool<T> {
    /// An empty pool with the default configuration: capacity of twice the
    /// CPU core count, no deadline, no runtime.
    fn default() -> (r: Self)
        ensures
            r@.idle == Seq::<T>::empty(),
            r@.checked_out == 0,
            r@.max_size >= 2,
            !r@.closed,
            r@.runtime is None,
            r@.timeout is None,
            r@.inv(),
    {
        Pool::from_config(&PoolConfig::default())
    }
}

impl<T> Pool<T> {
    /// Creates an empty pool from the given configuration.
    pub fn from_config(config: &PoolConfig) -> (r: Self)
        ensures
            r@.idle == Seq::<T>::empty(),
            r@.checked_out == 0,
            r@.max_size == config.max_size,
            !r@.closed,
            r@.runtime == config.runtime,
            r@.timeout == config.timeout,
            r@.inv(),
    {
        Pool {
            idle: Vec::new(),
            checked_out: 0,
            max_size: config.max_size,
            closed: false,
            runtime: config.runtime,
            timeout: config.timeout,
        }
    }

    /// Hands an object to the pool.  It is refused — and given back — when
    /// the pool is closed or already holds `max_size` objects.
    pub fn try_add(&mut self, obj: T) -> (r: Result<(), T>)
        requires
            old(self)@.inv(),
        ensures
            final(self)@.inv(),
            if !old(self)@.closed && old(self)@.size() < old(self)@.max_size {
                r is Ok && final(self)@ == (PoolModel {
                    idle: old(self)@.idle.push(obj),
                    ..old(self)@
                })
            } else {
                r == Err::<(), T>(obj) && final(self)@ == old(self)@
            },
    {
        if !self.closed && self.idle.len() < self.max_size - self.checked_out {
            self.idle.push(obj);
            Ok(())
        } else {
            Err(obj)
        }
    }

    /// One checkout transition, with an explicit deadline in milliseconds
    /// overriding the configured one; `None` waits without bound.
    ///
    /// The deadline is what remains of the wait: a positive one on an
    /// empty idle store asks the caller to suspend under the configured
    /// runtime — failing with [`PoolError::NoRuntimeSpecified`] when none
    /// is set — and retry with the deadline then remaining; a deadline of
    /// zero has elapsed and fails with [`PoolError::Timeout`].
    pub fn timeout_get(&mut self, timeout: Option<u64>) -> (r: GetOutcome<T>)
        requires
            old(self)@.inv(),
        ensures
            final(self)@.inv(),
            get_transition(old(self)@, final(self)@, r, timeout),
    {
        if self.closed {
            return GetOutcome::Fail(PoolError::Closed);
        }
        let bounded_under: Option<Runtime> = match timeout {
            Some(d) => {
                if d > 0 {
                    match self.runtime {
                        Some(rt) => Some(rt),
                        None => {
                            return GetOutcome::Fail(PoolError::NoRuntimeSpecified);
                        }
                    }
                } else {
                    None
                }
            }
            None => None,
        };
        match self.idle.pop() {
            Some(obj) => {
                self.checked_out = self.checked_out + 1;
                GetOutcome::Ready(obj)
            }
            None => {
                match timeout {
                    Some(d) => {
                        match bounded_under {
                            Some(rt) => GetOutcome::Wait(
                                WaitDirective::Bounded { runtime: rt, remaining_ms: d },
                            ),
                            None => GetOutcome::Fail(PoolError::Timeout),
                        }
                    }
                    None => GetOutcome::Wait(WaitDirective::Unbounded),
                }
            }
        }
    }

    /// One checkout transition under the configured default deadline.
    pub fn get(&mut self) -> (r: GetOutcome<T>)
        requires
            old(self)@.inv(),
        ensures
            final(self)@.inv(),
            get_transition(old(self)@, final(self)@, r, old(self)@.timeout),
    {
        let timeout = self.timeout;
        self.timeout_get(timeout)
    }

    /// Returns a checked-out object.  An open pool takes it back into the
    /// idle store; a closed pool destroys it and frees its capacity.
    pub fn put_back(&mut self, obj: T)
        requires
            old(self)@.inv(),
            old(self)@.checked_out > 0,
        ensures
            final(self)@.inv(),
            !old(self)@.closed ==> final(self)@ == spec_put_back(old(self)@, obj),
            old(self)@.closed ==> final(self)@ == spec_discard(old(self)@),
    {
        self.checked_out = self.checked_out - 1;
        if !self.closed {
            self.idle.push(obj);
        }
    }

    /// Closes the pool: destroys every idle object and makes every further
    /// checkout fail with [`PoolError::Closed`].  Closing an already closed
    /// pool changes nothing.
    pub fn close(&mut self)
        requires
            old(self)@.inv(),
        ensures
            final(self)@.inv(),
            final(self)@ == spec_close(old(self)@),
    {
        self.closed = true;
        self.idle.clear();
        proof {
            assert(final(self)@ =~= spec_close(old(self)@));
        }
    }

    /// Whether the pool has been closed.
    pub fn is_closed(&self) -> (r: bool)
        ensures
            r == self@.closed,
    {
        self.closed
    }

    /// The pool's capacity.
    pub fn max_size(&self) -> (r: usize)
        ensures
            r == self@.max_size,
    {
        self.max_size
    }

    /// The number of objects that exist: checked out plus idle.
    pub fn size(&self) -> (r: usize)
        requires
            self@.inv(),
        ensures
            r == self@.size(),
    {
        self.idle.len() + self.checked_out
    }

    /// The number of idle objects available for checkout.
    pub fn available(&self) -> (r: usize)
        ensures
            r == self@.idle.len(),
    {
        self.idle.len()
    }
}

/// The number of live objects — checked out plus idle — never exceeds the
/// capacity in any pool whose invariant holds; and every operation above
/// both requires and re-establishes that invariant, so no sequence of
/// checkouts, returns, additions and closes escapes the bound.
pub proof fn lemma_size_bounded_by_max<T>(m: PoolModel<T>)
    requires
        m.inv(),
    ensures
        m.checked_out <= m.max_size,
        m.idle.len() <= m.max_size,
        m.size() <= m.max_size,
{
}

/// A checkout followed by the return of the object it produced restores the
/// pool exactly: the object rejoins the idle store in its old (most recent)
/// position, and no capacity is gained or lost by the round trip.
pub proof fn lemma_take_put_back_roundtrip<T>(m: PoolModel<T>)
    requires
        m.inv(),
        !m.closed,
        m.idle.len() > 0,
    ensures
        spec_put_back(spec_take(m), m.idle.last()) == m,
{
    assert(spec_put_back(spec_take(m), m.idle.last()) =~= m);
}

/// Closing is idempotent: a second close leaves the pool exactly as the
/// first close left it.
pub proof fn lemma_close_idempotent<T>(m: PoolModel<T>)
    ensures
        spec_close(spec_close(m)) == spec_close(m),
{
    assert(spec_close(spec_close(m)) =~= spec_close(m));
}

/// Every checkout transition preserves the pool's invariant: whatever the
/// deadline and whatever the outcome, the number of live objects stays
/// within the capacity and a closed pool stays drained.
pub proof fn lemma_get_transition_preserves_inv<T>(
    pre: PoolModel<T>,
    post: PoolModel<T>,
    r: GetOutcome<T>,
    timeout: Option<u64>,
)
    requires
        pre.inv(),
        get_transition(pre, post, r, timeout),
    ensures
        post.inv(),
{
}

/// A closed pool refuses every checkout, with `Closed`, unchanged —
/// whatever the deadline.
pub proof fn lemma_closed_pool_refuses_checkout<T>(
    pre: PoolModel<T>,
    post: PoolModel<T>,
    r: GetOutcome<T>,
    timeout: Option<u64>,
)
    requires
        pre.closed,
        get_transition(pre, post, r, timeout),
    ensures
        r == GetOutcome::<T>::Fail(PoolError::Closed),
        post == pre,
{
}

/// A checkout with a zero deadline on an exhausted open pool fails with
/// `Timeout`, deterministically, and leaves the pool unchanged.
pub proof fn lemma_zero_deadline_times_out<T>(pre: PoolModel<T>, post: PoolModel<T>, r: GetOutcome<
    T,
>)
    requires
        !pre.closed,
        pre.exhausted(),
        get_transition(pre, post, r, Some(0)),
    ensures
        r == GetOutcome::<T>::Fail(PoolError::Timeout),
        post == pre,
{
}

/// An unbounded checkout never times out: on an exhausted open pool it
/// asks the caller to wait instead.
pub proof fn lemma_unbounded_wait_never_times_out<T>(
    pre: PoolModel<T>,
    post: PoolModel<T>,
    r: GetOutcome<T>,
)
    requires
        get_transition(pre, post, r, None),
    ensures
        r != GetOutcome::<T>::Fail(PoolError::Timeout),
{
}

/// A bounded checkout never times out before its deadline has elapsed:
/// with a positive remaining deadline and a runtime to suspend under, an
/// exhausted pool asks the caller to wait for exactly that remainder.
pub proof fn lemma_bounded_wait_never_times_out_early<T>(
    pre: PoolModel<T>,
    post: PoolModel<T>,
    r: GetOutcome<T>,
    d: u64,
)
    requires
        d > 0,
        pre.runtime is Some,
        get_transition(pre, post, r, Some(d)),
    ensures
        r != GetOutcome::<T>::Fail(PoolError::Timeout),
        (!pre.closed && pre.exhausted()) ==> r == GetOutcome::<T>::Wait(
            WaitDirective::Bounded { runtime: pre.runtime.unwrap(), remaining_ms: d },
        ),
{
}

} // verus!

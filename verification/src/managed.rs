//! The managed pool: the bounded-concurrency admission mechanism, the
//! checkout/return protocol, and the create/recycle state machine.
//!
//! # The admission discipline
//!
//! The pool owns `max_size` permits.  Every object that exists — checked
//! out or idle — holds exactly one permit; the remaining permits are free.
//! No code path creates an object without first taking a free permit, and a
//! permit returns to the free store only when its object is destroyed or
//! detached, so
//!
//! ```text
//! checked out + idle + free permits == max_size
//! ```
//!
//! holds at all times.  This is the pool's invariant, carried by every
//! operation's contract.
//!
//! # The sequential model
//!
//! Every operation is one atomic transition taken under exclusive access.
//! An embedding that serves concurrent tasks interleaves their transitions
//! and performs the suspension between them: a checkout that finds nothing
//! available reports [`GetOutcome::Wait`] with a directive, the embedding
//! suspends accordingly — under the pool's runtime for a bounded wait —
//! and re-enters with the deadline still remaining, computed by
//! [`crate::util::remaining_deadline`]; only an elapsed deadline, a
//! remaining deadline of zero, resolves to a timeout.  An embedding that
//! must also suspend around the manager itself takes the checkout apart
//! with [`Pool::begin_checkout`] and the finish steps beside it, bounding
//! the create and recycle phases by their own deadlines.  Closing drains
//! and destroys the idle store in the same step in which it marks the pool
//! closed, so the transient draining phase is never observable; an object
//! returned after that is destroyed rather than re-idled.
//!
//! Atomicity is also what makes giving up safe: a caller cancelled between
//! transitions has taken either no transition or a complete one, so an
//! abandoned wait leaks neither a permit nor a half-created object.  A
//! manager that panics mid-checkout unwinds out of the transition with its
//! instance counted as checked out: at most that one in-flight permit is
//! lost, and the pool itself stays usable.

pub mod config;
pub mod customizer;
pub mod errors;
pub mod object;

use vstd::prelude::*;

use crate::managed::config::{PoolConfig, Timeouts};
use crate::managed::errors::{BuildError, PoolError, RecycleResult};
use crate::managed::object::{bump_metrics, fresh_metrics, Metrics, Object, ObjectModel};
use crate::runtime::{Runtime, WaitDirective};

verus! {

/// The capability contract a resource type must implement: how to create an
/// instance and how to validate (recycle) an idle one just before it is
/// handed out again.
///
/// The manager is stateless with respect to the pool; it may hold its own
/// connection parameters and mutable counters, owned exclusively by the
/// manager instance.
pub trait Manager {
    /// The type of the managed instances.
    type Type;

    /// The manager's own error type, surfaced verbatim by the pool.
    type Error;

    /// Creates a new instance.  The pool surfaces a failure to the caller
    /// without retry at this layer.
    fn create(&mut self) -> Result<Self::Type, Self::Error>;

    /// Validates and refreshes an idle instance immediately before reuse,
    /// with exclusive access to the instance and read access to its record.
    /// Any error means the instance is destroyed, never handed out.
    fn recycle(&mut self, obj: &mut Self::Type, metrics: &Metrics) -> RecycleResult<Self::Error>;
}

/// Outcome of one checkout transition.
#[derive(Debug)]
pub enum GetOutcome<T, E> {
    /// An object is now checked out by the caller.
    Ready(Object<T>),
    /// The checkout failed; the reason says whether the pool changed.
    Fail(PoolError<E>),
    /// Nothing is idle and no permit is free: the caller must suspend as
    /// the directive says and then retry — with the remaining deadline
    /// for a bounded wait, unchanged for an unbounded one.
    Wait(WaitDirective),
}

/// Verdict of one admission transition: how the checkout goes on.
#[derive(Debug)]
pub enum Admission<T, E> {
    /// The most recently returned idle object was popped; its permit is
    /// now held by this in-flight checkout.  The caller runs the
    /// manager's recycle step on it and reports the verdict with
    /// [`Pool::finish_recycle_ok`] or [`Pool::note_recycle_failed`].
    Validate(Object<T>),
    /// A free permit was taken for this in-flight checkout.  The caller
    /// runs the manager's create step and reports the outcome with
    /// [`Pool::finish_create`].
    Create,
    /// Admission was refused; the pool is unchanged.
    Fail(PoolError<E>),
    /// Nothing is idle and no permit is free: suspend as the directive
    /// says, then ask again.
    Wait(WaitDirective),
}

/// The abstract state of a managed pool.
#[verifier::ext_equal]
pub ghost struct PoolModel<T> {
    /// Idle objects, oldest first: a checkout pops the last element.
    pub idle: Seq<ObjectModel<T>>,
    /// Number of objects currently checked out.
    pub checked_out: nat,
    /// Permits not attached to any object.
    pub free_permits: nat,
    /// Capacity: the number of permits that exist.
    pub max_size: nat,
    /// Checkouts between admission and completion: each holds one permit
    /// while its manager step runs.  Zero outside the step protocol.
    pub in_flight: nat,
    /// Whether the pool has been closed.
    pub closed: bool,
    /// Number of instances destroyed so far (saturating).
    pub destroyed: nat,
    /// Number of create attempts begun so far (saturating).
    pub create_attempts: nat,
    /// Number of recycle attempts begun so far (saturating).
    pub recycle_attempts: nat,
    /// The runtime under which bounded waits suspend.
    pub runtime: Option<Runtime>,
    /// Deadlines of the checkout phases.
    pub timeouts: Timeouts,
}

impl<T> PoolModel<T> {
    /// Objects that exist: checked out plus idle.
    pub open spec fn size(self) -> int {
        self.idle.len() + self.checked_out as int
    }

    /// The permit-conservation invariant, and: a closed pool holds no idle
    /// objects.
    pub open spec fn inv(self) -> bool {
        &&& self.idle.len() + self.checked_out + self.in_flight + self.free_permits
            == self.max_size
        &&& self.closed ==> self.idle.len() == 0
    }

    /// Whether a checkout would have to wait: nothing is idle and no
    /// permit is free.
    pub open spec fn exhausted(self) -> bool {
        self.idle.len() == 0 && self.free_permits == 0
    }
}

/// Whether a deadline asks for a bounded, non-zero wait.
pub open spec fn bounded_wait(timeout: Option<u64>) -> bool {
    match timeout {
        Some(d) => d > 0,
        None => false,
    }
}

/// Saturating addition of destruction counts.
pub open spec fn sat_add(a: nat, b: nat) -> nat {
    if a + b <= u64::MAX as nat {
        a + b
    } else {
        u64::MAX as nat
    }
}

/// The admission of a checkout against the idle store: the most recently
/// returned object is popped, and its permit travels with the in-flight
/// checkout that will validate it.
pub open spec fn spec_admit_idle<T>(m: PoolModel<T>) -> PoolModel<T> {
    PoolModel { idle: m.idle.drop_last(), in_flight: m.in_flight + 1, ..m }
}

/// The admission of a checkout against a free permit, which the in-flight
/// checkout holds while a fresh instance is created.
pub open spec fn spec_admit_create<T>(m: PoolModel<T>) -> PoolModel<T> {
    PoolModel { free_permits: (m.free_permits - 1) as nat, in_flight: m.in_flight + 1, ..m }
}

/// The completion of a successful validation: the in-flight checkout
/// becomes a checked-out object; one recycle attempt was made.
pub open spec fn spec_recycle_ok_step<T>(m: PoolModel<T>) -> PoolModel<T> {
    PoolModel {
        in_flight: (m.in_flight - 1) as nat,
        checked_out: m.checked_out + 1,
        recycle_attempts: sat_add(m.recycle_attempts, 1),
        ..m
    }
}

/// The record of a failed validation: one recycle attempt was made and
/// the popped instance was destroyed.  The checkout stays in flight, its
/// permit reserved for the creation fall-through.
pub open spec fn spec_recycle_failed_step<T>(m: PoolModel<T>) -> PoolModel<T> {
    PoolModel {
        destroyed: sat_add(m.destroyed, 1),
        recycle_attempts: sat_add(m.recycle_attempts, 1),
        ..m
    }
}

/// The completion of a successful creation: the in-flight checkout
/// becomes a checked-out object; one create attempt was made.
pub open spec fn spec_create_ok_step<T>(m: PoolModel<T>) -> PoolModel<T> {
    PoolModel {
        in_flight: (m.in_flight - 1) as nat,
        checked_out: m.checked_out + 1,
        create_attempts: sat_add(m.create_attempts, 1),
        ..m
    }
}

/// The completion of a failed creation: one create attempt was made and
/// the in-flight checkout's permit returns to the free store.
pub open spec fn spec_create_failed_step<T>(m: PoolModel<T>) -> PoolModel<T> {
    PoolModel {
        in_flight: (m.in_flight - 1) as nat,
        free_permits: m.free_permits + 1,
        create_attempts: sat_add(m.create_attempts, 1),
        ..m
    }
}

/// The abandonment of an in-flight checkout (a cancelled wait on the
/// manager): its permit returns to the free store, leaking nothing.
pub open spec fn spec_cancel_step<T>(m: PoolModel<T>) -> PoolModel<T> {
    PoolModel { in_flight: (m.in_flight - 1) as nat, free_permits: m.free_permits + 1, ..m }
}

/// The whole transition of a checkout served from the idle store: one
/// recycle attempt succeeded, and the popped object moved, with its
/// permit, to the checked-out state.
pub open spec fn spec_take_idle<T>(m: PoolModel<T>) -> PoolModel<T> {
    spec_recycle_ok_step(spec_admit_idle(m))
}

/// The whole transition of a checkout that found the popped idle object
/// unusable and created a replacement under the same permit: one recycle
/// attempt failed, one create attempt succeeded, one instance was
/// destroyed.
pub open spec fn spec_replace_failed<T>(m: PoolModel<T>) -> PoolModel<T> {
    spec_create_ok_step(spec_recycle_failed_step(spec_admit_idle(m)))
}

/// The whole transition of a checkout that destroyed the popped idle
/// object and then failed to create a replacement: its permit returns to
/// the free store, and the creation error is what the caller sees.
pub open spec fn spec_discard_failed<T>(m: PoolModel<T>) -> PoolModel<T> {
    spec_create_failed_step(spec_recycle_failed_step(spec_admit_idle(m)))
}

/// The whole transition of a checkout served by creation: a free permit
/// attaches to the new object; one create attempt was made.
pub open spec fn spec_create<T>(m: PoolModel<T>) -> PoolModel<T> {
    spec_create_ok_step(spec_admit_create(m))
}

/// The whole transition of a checkout whose creation failed with nothing
/// idle: the accounting is unchanged but for the recorded create attempt.
pub open spec fn spec_create_failed<T>(m: PoolModel<T>) -> PoolModel<T> {
    spec_create_failed_step(spec_admit_create(m))
}

/// The transition of a return to an open pool: the object joins the idle
/// store as its most recent element, keeping its permit.
pub open spec fn spec_put_back<T>(m: PoolModel<T>, o: ObjectModel<T>) -> PoolModel<T> {
    PoolModel { idle: m.idle.push(o), checked_out: (m.checked_out - 1) as nat, ..m }
}

/// The transition of a return to a closed pool: the object is destroyed
/// and its permit freed.
pub open spec fn spec_discard_returned<T>(m: PoolModel<T>) -> PoolModel<T> {
    PoolModel {
        checked_out: (m.checked_out - 1) as nat,
        free_permits: m.free_permits + 1,
        destroyed: sat_add(m.destroyed, 1),
        ..m
    }
}

/// The transition of a detach: the object leaves pool management alive,
/// and its permit is freed for good.
pub open spec fn spec_detach<T>(m: PoolModel<T>) -> PoolModel<T> {
    PoolModel {
        checked_out: (m.checked_out - 1) as nat,
        free_permits: m.free_permits + 1,
        ..m
    }
}

/// The transition of closing: the idle store is drained and destroyed,
/// every idle permit is freed, and no further checkout succeeds.
pub open spec fn spec_close<T>(m: PoolModel<T>) -> PoolModel<T> {
    PoolModel {
        idle: Seq::<ObjectModel<T>>::empty(),
        free_permits: m.free_permits + m.idle.len(),
        destroyed: sat_add(m.destroyed, m.idle.len() as nat),
        closed: true,
        ..m
    }
}

/// What one checkout transition may do, for a given effective wait
/// deadline and clock reading.  The structural decision — which error on
/// which pool state, and how the accounting moves — is exact; only where
/// the manager decides (did recycle or create succeed, and with what
/// instance) does the contract branch over the manager's verdict.
pub open spec fn get_transition<T, E>(
    pre: PoolModel<T>,
    post: PoolModel<T>,
    r: GetOutcome<T, E>,
    timeout: Option<u64>,
    now_ms: u64,
) -> bool {
    if pre.closed {
        r matches GetOutcome::Fail(PoolError::Closed) && post == pre
    } else if bounded_wait(timeout) && pre.runtime is None {
        r matches GetOutcome::Fail(PoolError::NoRuntimeSpecified) && post == pre
    } else if pre.idle.len() > 0 {
        ||| (r matches GetOutcome::Ready(o) && o@.metrics == bump_metrics(
            pre.idle.last().metrics,
            now_ms,
        ) && post == spec_take_idle(pre))
        ||| (r matches GetOutcome::Ready(o) && o@.metrics == fresh_metrics(now_ms) && post
            == spec_replace_failed(pre))
        ||| (r matches GetOutcome::Fail(PoolError::Backend(_)) && post == spec_discard_failed(
            pre,
        ))
    } else if pre.free_permits > 0 {
        ||| (r matches GetOutcome::Ready(o) && o@.metrics == fresh_metrics(now_ms) && post
            == spec_create(pre))
        ||| (r matches GetOutcome::Fail(PoolError::Backend(_)) && post == spec_create_failed(pre))
    } else {
        post == pre && match timeout {
            Some(d) => if d == 0 {
                r matches GetOutcome::Fail(PoolError::Timeout)
            } else {
                pre.runtime matches Some(rt) && r matches GetOutcome::Wait(w) && w
                    == (WaitDirective::Bounded { runtime: rt, remaining_ms: d })
            },
            None => r matches GetOutcome::Wait(w) && w == WaitDirective::Unbounded,
        }
    }
}

/// What one admission transition may do, for a given effective wait
/// deadline: the first half of a checkout, everything up to the manager's
/// own step.
pub open spec fn admission_transition<T, E>(
    pre: PoolModel<T>,
    post: PoolModel<T>,
    r: Admission<T, E>,
    timeout: Option<u64>,
) -> bool {
    if pre.closed {
        r matches Admission::Fail(PoolError::Closed) && post == pre
    } else if bounded_wait(timeout) && pre.runtime is None {
        r matches Admission::Fail(PoolError::NoRuntimeSpecified) && post == pre
    } else if pre.idle.len() > 0 {
        r matches Admission::Validate(o) && o@ == pre.idle.last() && post == spec_admit_idle(pre)
    } else if pre.free_permits > 0 {
        r matches Admission::Create && post == spec_admit_create(pre)
    } else {
        post == pre && match timeout {
            Some(d) => if d == 0 {
                r matches Admission::Fail(PoolError::Timeout)
            } else {
                pre.runtime matches Some(rt) && r matches Admission::Wait(w) && w
                    == (WaitDirective::Bounded { runtime: rt, remaining_ms: d })
            },
            None => r matches Admission::Wait(w) && w == WaitDirective::Unbounded,
        }
    }
}

/// A snapshot of the pool's accounting.
#[derive(Clone, Copy, Debug, PartialEq, Eq, Structural)]
pub struct Status {
    /// Capacity of the pool.
    pub max_size: usize,
    /// Objects that exist: checked out plus idle.
    pub size: usize,
    /// Idle objects available for checkout.
    pub available: usize,
}

/// A pool of reusable, manager-created objects.
pub struct Pool<M: Manager> {
    manager: M,
    idle: Vec<Object<M::Type>>,
    checked_out: usize,
    free_permits: usize,
    in_flight: usize,
    max_size: usize,
    closed: bool,
    destroyed: u64,
    create_attempts: u64,
    recycle_attempts: u64,
    runtime: Option<Runtime>,
    timeouts: Timeouts,
}

impl<M: Manager> View for Pool<M> {
    type V = PoolModel<M::Type>;

    closed spec fn view(&self) -> PoolModel<M::Type> {
        PoolModel {
            idle: self.idle@.map_values(|o: Object<M::Type>| o@),
            checked_out: self.checked_out as nat,
            free_permits: self.free_permits as nat,
            in_flight: self.in_flight as nat,
            max_size: self.max_size as nat,
            closed: self.closed,
            destroyed: self.destroyed as nat,
            create_attempts: self.create_attempts as nat,
            recycle_attempts: self.recycle_attempts as nat,
            runtime: self.runtime,
            timeouts: self.timeouts,
        }
    }
}

/// Builds a [`Pool`] from a manager, a configuration and an optional
/// runtime.
pub struct PoolBuilder<M: Manager> {
    /// The capability that creates and recycles instances.
    pub manager: M,
    /// Capacity and phase deadlines.
    pub config: PoolConfig,
    /// The runtime under which bounded waits suspend.
    pub runtime: Option<Runtime>,
}

impl<M: Manager> PoolBuilder<M> {
    /// Replaces the configuration.
    pub fn config(self, config: PoolConfig) -> (r: Self)
        ensures
            r.config == config,
            r.runtime == self.runtime,
            r.manager == self.manager,
    {
        PoolBuilder { config, ..self }
    }

    /// Sets the runtime under which bounded waits suspend.
    pub fn runtime(self, runtime: Runtime) -> (r: Self)
        ensures
            r.runtime == Some(runtime),
            r.config == self.config,
            r.manager == self.manager,
    {
        PoolBuilder { runtime: Some(runtime), ..self }
    }

    /// Sets the capacity.
    pub fn max_size(self, max_size: usize) -> (r: Self)
        ensures
            r.config.max_size == max_size,
            r.config.timeouts == self.config.timeouts,
            r.runtime == self.runtime,
            r.manager == self.manager,
    {
        PoolBuilder { config: PoolConfig { max_size, ..self.config }, ..self }
    }

    /// Builds the pool.
    ///
    /// A configuration that sets any phase deadline without naming a
    /// runtime cannot suspend and is refused here, at setup time, rather
    /// than at request time.
    pub fn build(self) -> (r: Result<Pool<M>, BuildError>)
        ensures
            if (self.config.timeouts.wait is Some || self.config.timeouts.create is Some
                || self.config.timeouts.recycle is Some) && self.runtime is None {
                r matches Err(e) && e == BuildError::NoRuntimeSpecified
            } else {
                r matches Ok(p) && p@ == (PoolModel {
                    idle: Seq::<ObjectModel<M::Type>>::empty(),
                    checked_out: 0,
                    free_permits: self.config.max_size as nat,
                    in_flight: 0,
                    max_size: self.config.max_size as nat,
                    closed: false,
                    destroyed: 0,
                    create_attempts: 0,
                    recycle_attempts: 0,
                    runtime: self.runtime,
                    timeouts: self.config.timeouts,
                }) && p@.inv()
            },
    {
        if self.config.timeouts.any_set() && self.runtime.is_none() {
            return Err(BuildError::NoRuntimeSpecified);
        }
        let pool = Pool {
            manager: self.manager,
            idle: Vec::new(),
            checked_out: 0,
            free_permits: self.config.max_size,
            in_flight: 0,
            max_size: self.config.max_size,
            closed: false,
            destroyed: 0,
            create_attempts: 0,
            recycle_attempts: 0,
            runtime: self.runtime,
            timeouts: self.config.timeouts,
        };
        proof {
            assert(pool@.idle =~= Seq::<ObjectModel<M::Type>>::empty());
        }
        Ok(pool)
    }
}

impl<M: Manager> Pool<M> {
    /// Starts building a pool around the given manager, with the default
    /// configuration and no runtime.
    pub fn builder(manager: M) -> (r: PoolBuilder<M>)
        ensures
            r.manager == manager,
            r.config.timeouts.wait is None,
            r.config.timeouts.create is None,
            r.config.timeouts.recycle is None,
            r.config.max_size >= 2,
            r.runtime is None,
    {
        PoolBuilder { manager, config: PoolConfig::default(), runtime: None }
    }

    /// One checkout transition under the configured wait deadline, with an
    /// explicit clock reading in milliseconds for the object's record.
    pub fn get_at(&mut self, now_ms: u64) -> (r: GetOutcome<M::Type, M::Error>)
        requires
            old(self)@.inv(),
        ensures
            final(self)@.inv(),
            get_transition(old(self)@, final(self)@, r, old(self)@.timeouts.wait, now_ms),
    {
        let timeout = self.timeouts.wait;
        self.get_timeout_at(timeout, now_ms)
    }

    /// One checkout transition under the configured wait deadline.
    pub fn get(&mut self) -> (r: GetOutcome<M::Type, M::Error>)
        requires
            old(self)@.inv(),
        ensures
            final(self)@.inv(),
            exists|now_ms: u64|
                get_transition(old(self)@, final(self)@, r, old(self)@.timeouts.wait, now_ms),
    {
        let now_ms = crate::util::now_millis();
        let r = self.get_at(now_ms);
        proof {
            assert(get_transition(old(self)@, final(self)@, r, old(self)@.timeouts.wait, now_ms));
        }
        r
    }

    /// One checkout transition with an explicit wait deadline overriding
    /// the configured one (`None` waits without bound), and an explicit
    /// clock reading in milliseconds for the object's record.
    ///
    /// The decision table, in order: a closed pool fails with `Closed`; a
    /// positive deadline without a runtime fails with
    /// `NoRuntimeSpecified`; otherwise the most recently returned idle
    /// object is validated and handed out (with one creation retry under
    /// the same permit when validation fails); with nothing idle, a free
    /// permit is taken and a fresh instance created; with nothing idle
    /// and no free permit, the caller is asked to wait — for the whole
    /// remaining deadline when one is set, without bound otherwise — and
    /// only a deadline that has already elapsed, a remaining deadline of
    /// zero, fails with `Timeout`.
    pub fn get_timeout_at(&mut self, timeout: Option<u64>, now_ms: u64) -> (r: GetOutcome<
        M::Type,
        M::Error,
    >)
        requires
            old(self)@.inv(),
        ensures
            final(self)@.inv(),
            get_transition(old(self)@, final(self)@, r, timeout, now_ms),
    {
        match self.begin_checkout(timeout) {
            Admission::Fail(e) => GetOutcome::Fail(e),
            Admission::Wait(w) => GetOutcome::Wait(w),
            Admission::Validate(mut obj) => {
                let metrics = obj.metrics();
                let verdict = self.manager.recycle(obj.inner_mut(), &metrics);
                match verdict {
                    Ok(()) => GetOutcome::Ready(self.finish_recycle_ok(obj, now_ms)),
                    Err(_) => {
                        self.note_recycle_failed(obj);
                        let created = self.manager.create();
                        match self.finish_create(created, now_ms) {
                            Ok(fresh) => GetOutcome::Ready(fresh),
                            Err(e) => GetOutcome::Fail(e),
                        }
                    }
                }
            }
            Admission::Create => {
                let created = self.manager.create();
                match self.finish_create(created, now_ms) {
                    Ok(fresh) => GetOutcome::Ready(fresh),
                    Err(e) => GetOutcome::Fail(e),
                }
            }
        }
    }

    /// The first half of a checkout: the admission decision, everything
    /// up to the manager's own step.  An embedding that must suspend
    /// around the manager — awaiting it, or bounding it with the create
    /// and recycle deadlines — takes this road and completes the checkout
    /// with [`Pool::finish_recycle_ok`], [`Pool::note_recycle_failed`],
    /// [`Pool::finish_create`] or [`Pool::cancel_checkout`].
    pub fn begin_checkout(&mut self, timeout: Option<u64>) -> (r: Admission<M::Type, M::Error>)
        requires
            old(self)@.inv(),
        ensures
            final(self)@.inv(),
            admission_transition(old(self)@, final(self)@, r, timeout),
    {
        if self.closed {
            return Admission::Fail(PoolError::Closed);
        }
        let bounded_under: Option<Runtime> = match timeout {
            Some(d) => {
                if d > 0 {
                    match self.runtime {
                        Some(rt) => Some(rt),
                        None => {
                            return Admission::Fail(PoolError::NoRuntimeSpecified);
                        }
                    }
                } else {
                    None
                }
            }
            None => None,
        };
        let popped = self.idle.pop();
        match popped {
            Some(obj) => {
                proof {
                    assert(old(self)@.idle.last() == obj@);
                    assert(self.idle@.map_values(|o: Object<M::Type>| o@) =~= old(
                        self,
                    )@.idle.drop_last());
                }
                self.in_flight = self.in_flight + 1;
                Admission::Validate(obj)
            }
            None => {
                if self.free_permits > 0 {
                    self.free_permits = self.free_permits - 1;
                    self.in_flight = self.in_flight + 1;
                    Admission::Create
                } else {
                    match timeout {
                        Some(d) => {
                            match bounded_under {
                                Some(rt) => Admission::Wait(
                                    WaitDirective::Bounded { runtime: rt, remaining_ms: d },
                                ),
                                None => Admission::Fail(PoolError::Timeout),
                            }
                        }
                        None => Admission::Wait(WaitDirective::Unbounded),
                    }
                }
            }
        }
    }

    /// Completes an admitted validation whose recycle step succeeded: the
    /// object's record gains one recycle, and the object is checked out.
    pub fn finish_recycle_ok(&mut self, obj: Object<M::Type>, now_ms: u64) -> (r: Object<M::Type>)
        requires
            old(self)@.inv(),
            old(self)@.in_flight > 0,
        ensures
            final(self)@.inv(),
            final(self)@ == spec_recycle_ok_step(old(self)@),
            r@.inner == obj@.inner,
            r@.metrics == bump_metrics(obj@.metrics, now_ms),
    {
        let mut obj = obj;
        obj.bump_recycled(now_ms);
        self.in_flight = self.in_flight - 1;
        self.checked_out = self.checked_out + 1;
        self.recycle_attempts = sat_add_u64(self.recycle_attempts, 1);
        obj
    }

    /// Records an admitted validation whose recycle step failed: the
    /// popped instance is destroyed, and the checkout stays in flight
    /// with its permit reserved for the creation fall-through.
    pub fn note_recycle_failed(&mut self, obj: Object<M::Type>)
        requires
            old(self)@.inv(),
            old(self)@.in_flight > 0,
        ensures
            final(self)@.inv(),
            final(self)@ == spec_recycle_failed_step(old(self)@),
    {
        let _ = obj.into_inner();
        self.destroyed = sat_add_u64(self.destroyed, 1);
        self.recycle_attempts = sat_add_u64(self.recycle_attempts, 1);
    }

    /// Completes an in-flight checkout with the outcome of the manager's
    /// create step: a created instance is wrapped in a fresh object and
    /// checked out; a failure frees the permit and surfaces the backend
    /// error — the creation error, never a recycle verdict, is what the
    /// caller sees.
    pub fn finish_create(&mut self, created: Result<M::Type, M::Error>, now_ms: u64) -> (r: Result<
        Object<M::Type>,
        PoolError<M::Error>,
    >)
        requires
            old(self)@.inv(),
            old(self)@.in_flight > 0,
        ensures
            final(self)@.inv(),
            match created {
                Ok(inner) => r matches Ok(o) && o@.inner == inner && o@.metrics == fresh_metrics(
                    now_ms,
                ) && final(self)@ == spec_create_ok_step(old(self)@),
                Err(e) => r matches Err(pe) && pe == PoolError::<M::Error>::Backend(e)
                    && final(self)@ == spec_create_failed_step(old(self)@),
            },
    {
        self.in_flight = self.in_flight - 1;
        self.create_attempts = sat_add_u64(self.create_attempts, 1);
        match created {
            Ok(inner) => {
                self.checked_out = self.checked_out + 1;
                Ok(Object::fresh(inner, now_ms))
            }
            Err(e) => {
                self.free_permits = self.free_permits + 1;
                Err(PoolError::Backend(e))
            }
        }
    }

    /// Abandons an in-flight checkout — an embedding whose wait on the
    /// manager was cancelled rolls back here: the permit returns to the
    /// free store and nothing is leaked.  An instance the manager did
    /// create anyway is the caller's to destroy.
    pub fn cancel_checkout(&mut self)
        requires
            old(self)@.inv(),
            old(self)@.in_flight > 0,
        ensures
            final(self)@.inv(),
            final(self)@ == spec_cancel_step(old(self)@),
    {
        self.in_flight = self.in_flight - 1;
        self.free_permits = self.free_permits + 1;
    }

    /// One checkout transition with an explicit wait deadline overriding
    /// the configured one; `None` waits without bound.
    pub fn get_timeout(&mut self, timeout: Option<u64>) -> (r: GetOutcome<M::Type, M::Error>)
        requires
            old(self)@.inv(),
        ensures
            final(self)@.inv(),
            exists|now_ms: u64| get_transition(old(self)@, final(self)@, r, timeout, now_ms),
    {
        let now_ms = crate::util::now_millis();
        let r = self.get_timeout_at(timeout, now_ms);
        proof {
            assert(get_transition(old(self)@, final(self)@, r, timeout, now_ms));
        }
        r
    }

    /// Returns a checked-out object.  An open pool takes it back into the
    /// idle store with its permit attached; a closed pool destroys it and
    /// frees its permit.
    pub fn put_back(&mut self, obj: Object<M::Type>)
        requires
            old(self)@.inv(),
            old(self)@.checked_out > 0,
        ensures
            final(self)@.inv(),
            !old(self)@.closed ==> final(self)@ == spec_put_back(old(self)@, obj@),
            old(self)@.closed ==> final(self)@ == spec_discard_returned(old(self)@),
    {
        self.checked_out = self.checked_out - 1;
        if !self.closed {
            let ghost om = obj@;
            self.idle.push(obj);
            proof {
                assert(self.idle@.map_values(|o: Object<M::Type>| o@) =~= old(self)@.idle.push(om));
            }
        } else {
            let _ = obj.into_inner();
            self.free_permits = self.free_permits + 1;
            self.destroyed = sat_add_u64(self.destroyed, 1);
        }
    }

    /// Removes an object from pool management entirely: its permit is
    /// freed for good, the instance is handed to the caller alive, and it
    /// will never be returned or re-validated.
    pub fn detach(&mut self, obj: Object<M::Type>) -> (r: M::Type)
        requires
            old(self)@.inv(),
            old(self)@.checked_out > 0,
        ensures
            final(self)@.inv(),
            final(self)@ == spec_detach(old(self)@),
            r == obj@.inner,
    {
        self.checked_out = self.checked_out - 1;
        self.free_permits = self.free_permits + 1;
        obj.into_inner()
    }

    /// Closes the pool: destroys every idle object, frees their permits,
    /// and makes every further checkout fail with `Closed`.  Objects still
    /// checked out are destroyed as they are returned.  Closing an already
    /// closed pool changes nothing.
    pub fn close(&mut self)
        requires
            old(self)@.inv(),
        ensures
            final(self)@.inv(),
            final(self)@ == spec_close(old(self)@),
    {
        let ghost pre = self@;
        self.closed = true;
        let mut drained: usize = 0;
        proof {
            assert(self.idle@.map_values(|o: Object<M::Type>| o@) =~= pre.idle.take(
                pre.idle.len() as int,
            ));
        }
        while self.idle.len() > 0
            invariant
                self.closed,
                drained <= pre.idle.len(),
                self.idle@.map_values(|o: Object<M::Type>| o@) == pre.idle.take(
                    pre.idle.len() - drained,
                ),
                self.checked_out == pre.checked_out,
                self.in_flight == pre.in_flight,
                self.max_size == pre.max_size,
                self.runtime == pre.runtime,
                self.timeouts == pre.timeouts,
                self.create_attempts == pre.create_attempts,
                self.recycle_attempts == pre.recycle_attempts,
                self.free_permits as nat == pre.free_permits + drained,
                self.destroyed as nat == sat_add(pre.destroyed, drained as nat),
                pre.idle.len() + pre.checked_out + pre.in_flight + pre.free_permits
                    == pre.max_size,
            decreases self.idle.len(),
        {
            proof {
                assert(pre.idle.take(pre.idle.len() - drained).len() == pre.idle.len() - drained);
                assert(self.idle@.len() == pre.idle.len() - drained);
                assert(drained < pre.idle.len());
            }
            let popped = self.idle.pop();
            match popped {
                Some(obj) => {
                    let _ = obj.into_inner();
                    drained = drained + 1;
                    self.free_permits = self.free_permits + 1;
                    self.destroyed = sat_add_u64(self.destroyed, 1);
                    proof {
                        assert(self.idle@.map_values(|o: Object<M::Type>| o@) =~= pre.idle.take(
                            pre.idle.len() - drained,
                        ));
                    }
                }
                None => {}
            }
        }
        proof {
            assert(pre.idle.take(pre.idle.len() - drained) =~= Seq::<ObjectModel<M::Type>>::empty());
            assert(drained == pre.idle.len());
            assert(final(self)@ =~= spec_close(pre));
        }
    }

    /// Whether the pool has been closed.
    pub fn is_closed(&self) -> (r: bool)
        ensures
            r == self@.closed,
    {
        self.closed
    }

    /// A snapshot of the pool's accounting.
    pub fn status(&self) -> (r: Status)
        requires
            self@.inv(),
        ensures
            r.max_size == self@.max_size,
            r.size == self@.size(),
            r.available == self@.idle.len(),
    {
        Status {
            max_size: self.max_size,
            size: self.idle.len() + self.checked_out,
            available: self.idle.len(),
        }
    }

    /// How many instances the pool has destroyed so far (saturating).
    pub fn destroyed_count(&self) -> (r: u64)
        ensures
            r as nat == self@.destroyed,
    {
        self.destroyed
    }

    /// How many create attempts the pool has begun so far (saturating).
    pub fn create_attempt_count(&self) -> (r: u64)
        ensures
            r as nat == self@.create_attempts,
    {
        self.create_attempts
    }

    /// How many recycle attempts the pool has begun so far (saturating).
    pub fn recycle_attempt_count(&self) -> (r: u64)
        ensures
            r as nat == self@.recycle_attempts,
    {
        self.recycle_attempts
    }

    /// Read access to the manager.
    pub fn manager(&self) -> (r: &M)
        ensures
            *r == self.manager_view(),
    {
        &self.manager
    }

    /// Exclusive access to the manager; the pool's own state is untouched.
    pub fn manager_mut(&mut self) -> (r: &mut M)
        ensures
            *r == old(self).manager_view(),
            final(self).manager_view() == *final(r),
            final(self)@ == old(self)@,
    {
        &mut self.manager
    }

    /// The manager the pool owns, as a specification-level value.
    pub closed spec fn manager_view(&self) -> M {
        self.manager
    }
}

/// Saturating addition on the destruction counter.
fn sat_add_u64(a: u64, b: u64) -> (r: u64)
    ensures
        r as nat == sat_add(a as nat, b as nat),
{
    if a <= u64::MAX - b {
        a + b
    } else {
        u64::MAX
    }
}

/// The number of live objects — checked out plus idle — never exceeds the
/// capacity in any pool whose permit-conservation invariant holds; and
/// every operation above both requires and re-establishes that invariant,
/// so no sequence of checkouts, returns, detaches and closes escapes the
/// bound.
pub proof fn lemma_size_bounded_by_max<T>(m: PoolModel<T>)
    requires
        m.inv(),
    ensures
        m.checked_out <= m.max_size,
        m.idle.len() <= m.max_size,
        m.size() <= m.max_size,
{
}

/// A checkout served from the idle store, followed by the return of the
/// object it produced, leaves the accounting exactly where it started: the
/// same number checked out, idle and free.  No permit is gained or lost by
/// a checkout/return cycle, so no sequence of such cycles starves the
/// pool.
pub proof fn lemma_take_put_back_conserves<T>(m: PoolModel<T>, o: ObjectModel<T>)
    requires
        m.inv(),
        !m.closed,
        m.idle.len() > 0,
    ensures
        spec_put_back(spec_take_idle(m), o).inv(),
        spec_put_back(spec_take_idle(m), o).checked_out == m.checked_out,
        spec_put_back(spec_take_idle(m), o).free_permits == m.free_permits,
        spec_put_back(spec_take_idle(m), o).idle.len() == m.idle.len(),
        spec_put_back(spec_take_idle(m), o).size() == m.size(),
{
}

/// Closing is idempotent: a second close leaves the pool exactly as the
/// first close left it, and any checkout after a close fails with
/// `Closed`.
pub proof fn lemma_close_idempotent<T>(m: PoolModel<T>)
    ensures
        spec_close(spec_close(m)) == spec_close(m),
{
    assert(spec_close(spec_close(m)) =~= spec_close(m));
}

/// Every checkout transition preserves the permit-conservation invariant:
/// whatever the deadline, the clock and the manager's verdicts, permits
/// are neither created nor lost, and a closed pool stays drained.
pub proof fn lemma_get_transition_preserves_inv<T, E>(
    pre: PoolModel<T>,
    post: PoolModel<T>,
    r: GetOutcome<T, E>,
    timeout: Option<u64>,
    now_ms: u64,
)
    requires
        pre.inv(),
        get_transition(pre, post, r, timeout, now_ms),
    ensures
        post.inv(),
{
}

/// A closed pool refuses every checkout, with `Closed`, unchanged —
/// whatever the deadline and the clock.
pub proof fn lemma_closed_pool_refuses_checkout<T, E>(
    pre: PoolModel<T>,
    post: PoolModel<T>,
    r: GetOutcome<T, E>,
    timeout: Option<u64>,
    now_ms: u64,
)
    requires
        pre.closed,
        get_transition(pre, post, r, timeout, now_ms),
    ensures
        r matches GetOutcome::Fail(PoolError::Closed),
        post == pre,
{
}

/// A checkout with a zero deadline on an exhausted open pool fails with
/// `Timeout`, deterministically, and leaves the pool unchanged.
pub proof fn lemma_zero_deadline_times_out<T, E>(
    pre: PoolModel<T>,
    post: PoolModel<T>,
    r: GetOutcome<T, E>,
    now_ms: u64,
)
    requires
        !pre.closed,
        pre.exhausted(),
        get_transition(pre, post, r, Some(0), now_ms),
    ensures
        r matches GetOutcome::Fail(PoolError::Timeout),
        post == pre,
{
}

/// An unbounded checkout never times out: on an exhausted open pool it
/// asks the caller to wait instead.
pub proof fn lemma_unbounded_wait_never_times_out<T, E>(
    pre: PoolModel<T>,
    post: PoolModel<T>,
    r: GetOutcome<T, E>,
    now_ms: u64,
)
    requires
        get_transition(pre, post, r, None, now_ms),
    ensures
        !(r matches GetOutcome::Fail(PoolError::Timeout)),
{
}

/// A bounded checkout never times out before its deadline has elapsed:
/// with a positive remaining deadline and a runtime to suspend under, an
/// exhausted pool asks the caller to wait for exactly that remainder.
pub proof fn lemma_bounded_wait_never_times_out_early<T, E>(
    pre: PoolModel<T>,
    post: PoolModel<T>,
    r: GetOutcome<T, E>,
    d: u64,
    now_ms: u64,
)
    requires
        d > 0,
        pre.runtime is Some,
        get_transition(pre, post, r, Some(d), now_ms),
    ensures
        !(r matches GetOutcome::Fail(PoolError::Timeout)),
        (!pre.closed && pre.exhausted()) ==> (r matches GetOutcome::Wait(w) && w
            == (WaitDirective::Bounded { runtime: pre.runtime.unwrap(), remaining_ms: d })),
{
}

/// A recycle verdict never reaches the caller: a checkout that popped an
/// idle object either hands an object out, or fails with a backend error
/// from the creation fall-through — in which case one recycle attempt and
/// then one create attempt were made, and the popped instance was
/// destroyed, exactly once each.
pub proof fn lemma_recycle_failure_falls_through<T, E>(
    pre: PoolModel<T>,
    post: PoolModel<T>,
    r: GetOutcome<T, E>,
    timeout: Option<u64>,
    now_ms: u64,
)
    requires
        pre.inv(),
        !pre.closed,
        !(bounded_wait(timeout) && pre.runtime is None),
        pre.idle.len() > 0,
        get_transition(pre, post, r, timeout, now_ms),
    ensures
        (r matches GetOutcome::Ready(_)) || (r matches GetOutcome::Fail(PoolError::Backend(_))),
        (r matches GetOutcome::Fail(_)) ==> {
            &&& r matches GetOutcome::Fail(PoolError::Backend(_))
            &&& post.recycle_attempts == sat_add(pre.recycle_attempts, 1)
            &&& post.create_attempts == sat_add(pre.create_attempts, 1)
            &&& post.destroyed == sat_add(pre.destroyed, 1)
            &&& post.free_permits == pre.free_permits + 1
        },
{
}

/// A checkout served by a successful validation reuses the idle instance:
/// exactly one recycle attempt and no create attempt is made, the object
/// handed out carries the popped slot's record with one more recycle on
/// it, and nothing is destroyed.
pub proof fn lemma_idle_hit_reuses_instance<T, E>(
    pre: PoolModel<T>,
    post: PoolModel<T>,
    r: GetOutcome<T, E>,
    timeout: Option<u64>,
    now_ms: u64,
)
    requires
        pre.inv(),
        !pre.closed,
        !(bounded_wait(timeout) && pre.runtime is None),
        pre.idle.len() > 0,
        get_transition(pre, post, r, timeout, now_ms),
        r matches GetOutcome::Ready(o) && o@.metrics.last_recycled_ms is Some,
    ensures
        post == spec_take_idle(pre),
        post.recycle_attempts == sat_add(pre.recycle_attempts, 1),
        post.create_attempts == pre.create_attempts,
        post.destroyed == pre.destroyed,
        r matches GetOutcome::Ready(o) && o@.metrics == bump_metrics(
            pre.idle.last().metrics,
            now_ms,
        ),
{
}

} // verus!

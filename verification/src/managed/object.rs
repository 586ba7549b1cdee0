//! The owned wrapper around one manager-created instance, and the
//! per-object record the recycle step maintains.

use vstd::prelude::*;

verus! {

/// Per-object record: creation time, recycle count and time of the last
/// recycle.  Owned by the [`Object`], mutated only by the pool's recycle
/// step, and read-only to the manager.
#[derive(Clone, Copy, Debug, PartialEq, Eq, Structural)]
pub struct Metrics {
    /// When the instance was created, in milliseconds.
    pub created_ms: u64,
    /// How many times the instance passed a recycle step.
    pub recycle_count: u64,
    /// When the instance last passed a recycle step, in milliseconds.
    pub last_recycled_ms: Option<u64>,
}

/// The record of a freshly created instance.
pub open spec fn fresh_metrics(now_ms: u64) -> Metrics {
    Metrics { created_ms: now_ms, recycle_count: 0, last_recycled_ms: None }
}

/// Saturating increment, as the recycle counter never wraps.
pub open spec fn sat_inc(x: u64) -> u64 {
    if x < u64::MAX {
        (x + 1) as u64
    } else {
        x
    }
}

/// The record after one more successful recycle step.
pub open spec fn bump_metrics(m: Metrics, now_ms: u64) -> Metrics {
    Metrics { recycle_count: sat_inc(m.recycle_count), last_recycled_ms: Some(now_ms), ..m }
}

/// The abstract content of an [`Object`]: the instance and its record.
#[verifier::ext_equal]
pub ghost struct ObjectModel<T> {
    /// The manager-created instance.
    pub inner: T,
    /// Its per-object record.
    pub metrics: Metrics,
}

/// Exclusive ownership of one manager-created instance together with its
/// [`Metrics`].
///
/// An object is either checked out by exactly one caller or resides in the
/// pool's idle store — never both.  Ownership is linear: the pool hands the
/// object out by value, and the caller either gives it back with
/// `Pool::put_back`, removes it from pool management with `Pool::detach`,
/// or lets the embedding do one of the two when its scope ends.
#[derive(Debug)]
pub struct Object<T> {
    inner: T,
    metrics: Metrics,
}

impl<T> View for Object<T> {
    type V = ObjectModel<T>;

    closed spec fn view(&self) -> ObjectModel<T> {
        ObjectModel { inner: self.inner, metrics: self.metrics }
    }
}

impl<T> Object<T> {
    /// Wraps a freshly created instance, with its record initialized.
    pub(crate) fn fresh(inner: T, now_ms: u64) -> (r: Self)
        ensures
            r@.inner == inner,
            r@.metrics == fresh_metrics(now_ms),
    {
        Object { inner, metrics: fresh_metrics_exec(now_ms) }
    }

    /// Records one more successful recycle step.
    pub(crate) fn bump_recycled(&mut self, now_ms: u64)
        ensures
            final(self)@.inner == old(self)@.inner,
            final(self)@.metrics == bump_metrics(old(self)@.metrics, now_ms),
    {
        self.metrics.recycle_count = if self.metrics.recycle_count < u64::MAX {
            self.metrics.recycle_count + 1
        } else {
            self.metrics.recycle_count
        };
        self.metrics.last_recycled_ms = Some(now_ms);
    }

    /// Read access to the instance.
    pub fn inner(&self) -> (r: &T)
        ensures
            *r == self@.inner,
    {
        &self.inner
    }

    /// Exclusive access to the instance; the record is untouched.
    pub fn inner_mut(&mut self) -> (r: &mut T)
        ensures
            *r == old(self)@.inner,
            final(self)@.inner == *final(r),
            final(self)@.metrics == old(self)@.metrics,
    {
        &mut self.inner
    }

    /// The object's record.
    pub fn metrics(&self) -> (r: Metrics)
        ensures
            r == self@.metrics,
    {
        self.metrics
    }

    /// Unwraps the instance, dropping the record.
    pub(crate) fn into_inner(self) -> (r: T)
        ensures
            r == self@.inner,
    {
        let Object { inner, metrics: _ } = self;
        inner
    }
}

/// The executable twin of [`fresh_metrics`].
fn fresh_metrics_exec(now_ms: u64) -> (r: Metrics)
    ensures
        r == fresh_metrics(now_ms),
{
    Metrics { created_ms: now_ms, recycle_count: 0, last_recycled_ms: None }
}

} // verus!

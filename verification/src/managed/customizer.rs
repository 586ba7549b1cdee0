//! The decorator that post-processes freshly created instances.
//!
//! An object customizer turns what the manager creates into a different
//! handed-out type, without touching recycle or the pool's bookkeeping: a
//! capability with a single transform method, applied by
//! [`ObjectCustomizer::wrap_manager`], which takes a [`Manager`] and
//! returns a [`WrappedManager`].  A transform that must suspend is run by
//! the embedding around the wrapped manager's create step.

use vstd::prelude::*;

use crate::managed::errors::RecycleResult;
use crate::managed::object::Metrics;
use crate::managed::Manager;

verus! {

/// A transform applied to every instance a manager creates, producing the
/// outward-facing type handed to the pool's callers.
///
/// What the transform computes is named by [`Self::spec_customize`], and
/// the executable transform is held to it, so a wrapped manager's
/// contract can speak of the transformed value.  Since recycle is
/// delegated unchanged to the inner manager, the produced type must
/// expose mutable access to the inner instance: [`Self::spec_inner`] names
/// that view and [`Self::as_inner_mut`] is the capability itself.
pub trait ObjectCustomizer<T>: Sized {
    /// The outward-facing type handed to the pool's callers.
    type Output;

    /// What the transform turns a created instance into.
    spec fn spec_customize(&self, obj: T) -> Self::Output;

    /// The inner instance seen through a transformed value.
    spec fn spec_inner(out: Self::Output) -> T;

    /// Transforms a freshly created instance.
    fn customize(&self, obj: T) -> (r: Self::Output)
        ensures
            r == self.spec_customize(obj),
    ;

    /// Mutable access to the inner instance, for the delegated recycle
    /// step: what it reads, and what is later read through the
    /// transformed value, is the inner instance named by
    /// [`Self::spec_inner`].
    fn as_inner_mut(out: &mut Self::Output) -> (r: &mut T)
        ensures
            *r == Self::spec_inner(*old(out)),
            Self::spec_inner(*final(out)) == *final(r),
    ;

    /// Applies this customizer to a manager, returning a manager that
    /// creates customized instances and recycles through the inner one.
    fn wrap_manager<M: Manager<Type = T>>(self, manager: M) -> (r: WrappedManager<M, Self>)
        ensures
            r.manager == manager,
            r.customizer == self,
    {
        WrappedManager { manager, customizer: self }
    }
}

/// Applies a customizer to the outcome of a manager's create step: a
/// created instance is transformed, an error passes through verbatim, and
/// the transform is never invoked on a failure.
pub fn apply_customizer<T, E, C: ObjectCustomizer<T>>(
    created: Result<T, E>,
    customizer: &C,
) -> (r: Result<C::Output, E>)
    ensures
        match created {
            Ok(obj) => r matches Ok(w) && w == customizer.spec_customize(obj),
            Err(e) => r matches Err(e2) && e2 == e,
        },
{
    match created {
        Ok(obj) => Ok(customizer.customize(obj)),
        Err(e) => Err(e),
    }
}

/// A manager that intercepts only `create`: it calls the inner manager's
/// `create`, then applies the customizer's transform.  `recycle` is
/// delegated unchanged to the inner manager, through the customizer's view
/// of the inner instance.
pub struct WrappedManager<M: Manager, C: ObjectCustomizer<M::Type>> {
    /// The inner manager.
    pub manager: M,
    /// The transform applied to every created instance.
    pub customizer: C,
}

impl<M: Manager, C: ObjectCustomizer<M::Type>> Manager for WrappedManager<M, C> {
    type Type = C::Output;

    type Error = M::Error;

    /// What the inner manager created, with the transform applied; its
    /// error untouched, the transform not invoked on it.  An `Ok` value
    /// is always some instance's transform — with a doubling customizer
    /// over integers, always an even number — and the customizer itself
    /// comes through unchanged.
    fn create(&mut self) -> (r: Result<C::Output, M::Error>)
        ensures
            final(self).customizer == old(self).customizer,
            r matches Ok(w) ==> exists|obj: M::Type| w == old(self).customizer.spec_customize(obj),
    {
        let created = self.manager.create();
        let ghost created_snapshot = created;
        let r = apply_customizer(created, &self.customizer);
        proof {
            if r is Ok {
                assert(created_snapshot matches Ok(obj) && r matches Ok(w) && w
                    == self.customizer.spec_customize(obj));
            }
        }
        r
    }

    /// Delegation to the inner manager, on the inner instance seen
    /// through the customizer's view; the customizer is never invoked and
    /// comes through unchanged, and the record is passed through as is.
    fn recycle(&mut self, obj: &mut C::Output, metrics: &Metrics) -> (r: RecycleResult<M::Error>)
        ensures
            final(self).customizer == old(self).customizer,
    {
        self.manager.recycle(C::as_inner_mut(obj), metrics)
    }
}

} // verus!

//! Per-core mutable state on bare-metal targets, made safe by exception masking.
//!
//! [`PerCore`] holds one value per CPU core and hands each core only its own value;
//! [`CriticalCell`] hands out its contents only to a holder of an [`ExceptionFree`]
//! token, which proves that exceptions are masked on the current core. Together they give
//! per-core mutable state that exception handlers can share safely.
use vstd::prelude::*;
use core::marker::PhantomData;

pub mod boxed;
pub mod criticalcell;
pub mod exceptions;

pub use self::criticalcell::CriticalCell;
pub use self::exceptions::{exception_free, ExceptionFree, MaskStack, RegionGuard};

verus! {

/// How to get the index of the current CPU core.
///
/// An implementation must never return the same index on two different CPU cores.
pub trait Cores {
    /// A bound on every index that `core_index` returns. By default it is no bound beyond
    /// the range of `usize`; an implementation that knows the number of cores states it
    /// here, and is held to it.
    open spec fn core_count() -> nat {
        usize::MAX as nat + 1
    }

    /// Returns the index of the current CPU core.
    fn core_index() -> (index: usize)
        ensures
            index < Self::core_count(),
    ;
}

/// A type which allows values to be stored per CPU core, in the storage `V`. Only the
/// value associated with the current CPU core can be accessed.
///
/// To use this type you must first implement the [`Cores`] trait for your platform.
/// `C::core_index()` must always return an index below the number of values: verified
/// callers show it through [`Cores::core_count`]; elsewhere a larger index is a runtime
/// panic, never a read of another core's value.
pub struct PerCore<V, C> {
    values: V,
    _cores: PhantomData<C>,
}

impl<T, C: Cores, const CORE_COUNT: usize> PerCore<[T; CORE_COUNT], C> {
    /// The values, one per core, by core index.
    pub closed spec fn slots(&self) -> Seq<T> {
        self.values@
    }

    /// Creates a new set of per-core values, the value of core `i` at index `i`.
    pub fn new(values: [T; CORE_COUNT]) -> (r: Self)
        ensures
            r.slots() == values@,
    {
        PerCore { values, _cores: PhantomData }
    }

    /// Gets a shared reference to the value for the core with index `index`.
    pub fn slot(&self, index: usize) -> (r: &T)
        requires
            index < CORE_COUNT,
        ensures
            *r == self.slots()[index as int],
    {
        &self.values[index]
    }

    /// Gets a unique reference to the value for the core with index `index`.
    pub fn slot_mut(&mut self, index: usize) -> (r: &mut T)
        requires
            index < CORE_COUNT,
        ensures
            *r == old(self).slots()[index as int],
            final(self).slots() == old(self).slots().update(index as int, *final(r)),
    {
        &mut self.values[index]
    }

    /// Gets a shared reference to the value for the current CPU core: the one at the index
    /// that `C::core_index` reports.
    pub fn get(&self) -> (r: &T)
        requires
            C::core_count() <= CORE_COUNT,
        ensures
            exists|i: usize|
                C::core_index.ensures((), i) && i < self.slots().len() && *r == self.slots()[i as int],
    {
        self.slot(C::core_index())
    }

    /// Gets a unique reference to the value for the current CPU core: the one at the index
    /// that `C::core_index` reports. The values of the other cores stay as they are.
    pub fn get_mut(&mut self) -> (r: &mut T)
        requires
            C::core_count() <= CORE_COUNT,
        ensures
            exists|i: usize|
                C::core_index.ensures((), i) && i < CORE_COUNT && *r == old(self).slots()[i as int]
                    && final(self).slots() == old(self).slots().update(i as int, *final(r)),
    {
        self.slot_mut(C::core_index())
    }
}

} // verus!

//! Per-core values in a slice on the heap, its length chosen at run time.
use vstd::prelude::*;
use core::marker::PhantomData;

use crate::{Cores, PerCore};

verus! {

/// Relies on `Vec::into_boxed_slice`: the boxed slice holds the vector's elements, in
/// their order.
#[verifier::external_body]
fn into_boxed_slice<T>(v: Vec<T>) -> (b: Box<[T]>)
    ensures
        b@ == v@,
{
    v.into_boxed_slice()
}

impl<T, C: Cores> PerCore<Box<[T]>, C> {
    /// The values, one per core, by core index.
    pub closed spec fn slots(&self) -> Seq<T> {
        self.values@
    }

    /// Creates a new set of per-core values, the value of core `i` at index `i`.
    pub fn new(values: Box<[T]>) -> (r: Self)
        ensures
            r.slots() == values@,
    {
        PerCore { values, _cores: PhantomData }
    }

    /// The number of values, which is the number of cores that they were made for.
    pub fn len(&self) -> (r: usize)
        ensures
            r == self.slots().len(),
    {
        self.values.len()
    }

    /// Gets a shared reference to the value for the core with index `index`.
    pub fn slot(&self, index: usize) -> (r: &T)
        requires
            index < self.slots().len(),
        ensures
            *r == self.slots()[index as int],
    {
        &self.values[index]
    }

    /// Gets a shared reference to the value for the current CPU core: the one at the index
    /// that `C::core_index` reports.
    pub fn get(&self) -> (r: &T)
        requires
            C::core_count() <= self.slots().len(),
        ensures
            exists|i: usize|
                C::core_index.ensures((), i) && i < self.slots().len() && *r == self.slots()[i as int],
    {
        self.slot(C::core_index())
    }
}

impl<T: Default, C: Cores> PerCore<Box<[T]>, C> {
    /// Returns a new `PerCore` wrapping a boxed slice of `core_count` elements, each
    /// initialised to the default value of `T`.
    pub fn new_with_default(core_count: usize) -> (r: Self)
        ensures
            r.slots().len() == core_count,
            forall|i: int| 0 <= i < core_count ==> T::default.ensures((), #[trigger] r.slots()[i]),
    {
        let mut values: Vec<T> = Vec::new();
        let mut n: usize = 0;
        while n < core_count
            invariant
                n <= core_count,
                values@.len() == n,
                forall|i: int| 0 <= i < n ==> T::default.ensures((), #[trigger] values@[i]),
            decreases core_count - n,
        {
            values.push(T::default());
            n = n + 1;
        }
        Self::new(into_boxed_slice(values))
    }
}

} // verus!

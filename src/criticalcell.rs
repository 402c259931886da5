//! A value that can be reached only while exceptions are masked.
use vstd::prelude::*;

use crate::exceptions::ExceptionFree;

verus! {

/// Allows access to the given value only while exceptions are masked, allowing it to be
/// shared between exception contexts on a given CPU.
pub struct CriticalCell<T> {
    value: T,
}

impl<T> View for CriticalCell<T> {
    type V = T;

    /// The value held by the cell.
    closed spec fn view(&self) -> T {
        self.value
    }
}

impl<T> CriticalCell<T> {
    /// Creates a new `CriticalCell` containing the given value.
    pub fn new(value: T) -> (cell: Self)
        ensures
            cell@ == value,
    {
        CriticalCell { value }
    }

    /// Gets a shared reference to the contents of the cell, given a token proving that
    /// exceptions are currently masked.
    pub fn borrow<'cs>(&'cs self, token: ExceptionFree<'cs>) -> (r: &'cs T)
        ensures
            *r == self@,
    {
        &self.value
    }

    /// Gets a unique reference to the contents of the cell, given a token proving that
    /// exceptions are currently masked. What is written through it is what the cell holds
    /// afterwards.
    pub fn borrow_mut<'cs>(&'cs mut self, token: ExceptionFree<'cs>) -> (r: &'cs mut T)
        ensures
            *r == old(self)@,
            final(self)@ == *final(r),
    {
        &mut self.value
    }
}

/// Two reads of a cell through the same token, with no write between them, give the
/// same value: the one that the cell holds.
pub proof fn lemma_reads_agree<T>(cell: CriticalCell<T>, first: T, second: T)
    requires
        first == cell@,
        second == cell@,
    ensures
        first == second,
{
}

} // verus!

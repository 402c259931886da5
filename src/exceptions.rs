//! Masking of asynchronous exceptions, and the token that proves it.
//!
//! [`MaskStack`] follows the exception mask of one core through nested masked regions:
//! each region masks on entry, saves the previous `DAIF` value, and restores it on exit,
//! innermost first. A token borrows the stack, so no region can be left while a token
//! of it is alive.
use vstd::prelude::*;
use core::marker::PhantomData;

pub mod aarch32;
pub mod aarch64;

use self::aarch64::{all_masked, masked};

verus! {

/// A token proving that exceptions are currently masked.
///
/// Note that synchronous exceptions cannot be masked and so may still occur.
#[derive(Clone, Copy, Debug)]
pub struct ExceptionFree<'cs> {
    _private: PhantomData<&'cs ()>,
}

impl<'cs> ExceptionFree<'cs> {
    /// Constructs a token that proves that exceptions are masked on the core whose mask
    /// state is `state`. The token borrows `state`, so no region can be left before it is
    /// dropped.
    pub fn new(state: &'cs MaskStack) -> (token: Self)
        requires
            state.is_masked(),
    {
        ExceptionFree { _private: PhantomData }
    }
}

/// The exception mask state of one core: the `DAIF` register, and the values saved by
/// the masked regions that were entered and not yet left, outermost first.
pub struct MaskStack {
    daif: u64,
    saved: Vec<u64>,
}

/// Proof of having entered a masked region; it is handed back to leave the region.
#[derive(Debug)]
pub struct RegionGuard {
    depth: usize,
}

impl RegionGuard {
    /// The number of regions that were open once this one was entered.
    pub closed spec fn level(&self) -> nat {
        self.depth as nat
    }
}

/// The mask state of a core as a value: the `DAIF` register, and the values saved by the
/// open regions, outermost first.
pub type MaskState = (u64, Seq<u64>);

/// Whether some masked region is open in `s`.
pub open spec fn in_region(s: MaskState) -> bool {
    s.1.len() > 0
}

/// While a region is open every exception stays masked, also in the values that the
/// inner regions saved.
pub open spec fn state_wf(s: MaskState) -> bool {
    &&& in_region(s) ==> all_masked(s.0)
    &&& forall|i: int| 0 < i < s.1.len() ==> all_masked(#[trigger] s.1[i])
}

/// The state after entering a region in `s`: masked, with the previous `DAIF` value saved.
pub open spec fn entered(s: MaskState) -> MaskState {
    (masked(s.0), s.1.push(s.0))
}

/// The state after leaving the innermost region of `s`: the value saved on its entry is
/// restored.
pub open spec fn left(s: MaskState) -> MaskState {
    (aarch64::restored(s.0, s.1.last()), s.1.drop_last())
}

impl View for MaskStack {
    type V = MaskState;

    closed spec fn view(&self) -> MaskState {
        (self.daif, self.saved@)
    }
}

impl MaskStack {
    /// Whether some masked region is open.
    pub open spec fn is_masked(&self) -> bool {
        in_region(self@)
    }

    /// Whether the state is one that the regions can reach: see [`state_wf`].
    pub open spec fn wf(&self) -> bool {
        state_wf(self@)
    }

    /// A core with no open region and the `DAIF` value `daif`.
    pub fn new(daif: u64) -> (state: Self)
        ensures
            state@ == (daif, Seq::<u64>::empty()),
            state.wf(),
    {
        MaskStack { daif, saved: Vec::new() }
    }

    /// The current value of `DAIF`.
    pub fn daif(&self) -> (r: u64)
        ensures
            r == self@.0,
    {
        self.daif
    }

    /// The number of open regions.
    pub fn depth(&self) -> (r: usize)
        ensures
            r == self@.1.len(),
    {
        self.saved.len()
    }

    /// Enters a masked region: masks every exception and saves the previous `DAIF` value.
    pub fn enter(&mut self) -> (guard: RegionGuard)
        requires
            old(self).wf(),
        ensures
            final(self)@ == entered(old(self)@),
            guard.level() == final(self)@.1.len(),
            final(self).wf(),
    {
        let prev = aarch64::mask(&mut self.daif);
        self.saved.push(prev);
        RegionGuard { depth: self.saved.len() }
    }

    /// Leaves the innermost open region, whose guard is `guard`: restores the `DAIF` value
    /// saved on its entry. Regions are left in the reverse order of their entry.
    pub fn exit(&mut self, guard: RegionGuard)
        requires
            old(self).wf(),
            old(self).is_masked(),
            guard.level() == old(self)@.1.len(),
        ensures
            final(self)@ == left(old(self)@),
            final(self).wf(),
    {
        let prev = self.saved.pop().unwrap();
        aarch64::restore(&mut self.daif, prev);
        assert(self.saved@ =~= old(self).saved@.drop_last());
    }
}

/// A region entered inside another and then left gives back the state of the outer
/// region, which is still open and masked; leaving the outer region then gives back the
/// state from before either was entered. The number of open regions comes back to where
/// it started and never drops below it.
pub proof fn lemma_nested_regions(s: MaskState)
    requires
        state_wf(s),
    ensures
        state_wf(entered(s)),
        state_wf(entered(entered(s))),
        left(entered(entered(s))) == entered(s),
        in_region(left(entered(entered(s)))),
        all_masked(left(entered(entered(s))).0),
        left(left(entered(entered(s)))) == s,
        left(entered(s)) == s,
{
    aarch64::lemma_masked_is_all_masked(s.0);
    aarch64::lemma_masked_is_all_masked(masked(s.0));
    assert(entered(s).1.drop_last() =~= s.1);
    assert(entered(entered(s)).1.drop_last() =~= entered(s).1);
}

/// Runs `f` with exceptions masked on the core whose mask state is `state`, and restores
/// the previous mask state once `f` has returned.
pub fn exception_free<T, F>(state: &mut MaskStack, f: F) -> (r: T)
    where
        F: FnOnce(ExceptionFree<'_>) -> T,
    requires
        old(state).wf(),
        forall|token: ExceptionFree| f.requires((token,)),
    ensures
        final(state)@ == old(state)@,
        exists|token: ExceptionFree| f.ensures((token,), r),
{
    let guard = state.enter();
    let token = ExceptionFree::new(state);
    let r = f(token);
    state.exit(guard);
    r
}

} // verus!

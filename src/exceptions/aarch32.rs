//! The exception mask of 32-bit Arm: the A, I and F bits of the `CPSR` register.
use vstd::prelude::*;

verus! {

/// The A, I and F bits of `CPSR` (bits 8 to 6): setting them masks SError, IRQ and FIQ
/// exceptions.
pub const AIF_MASK: u32 = 0x1c0;

/// Whether every maskable exception is masked in the `CPSR` value `cpsr`.
pub open spec fn all_masked(cpsr: u32) -> bool {
    cpsr & AIF_MASK == AIF_MASK
}

/// The value of `CPSR` after `cpsid aif` on the value `cpsr`.
pub open spec fn masked(cpsr: u32) -> u32 {
    cpsr | AIF_MASK
}

/// The mask state that `mask` saves from the value `cpsr`: its A, I and F bits alone.
pub open spec fn saved_state(cpsr: u32) -> u32 {
    cpsr & AIF_MASK
}

/// The value of `CPSR` after restoring the saved state `prev` on the value `cpsr`: each
/// of the A, I and F bits stays set only where it is set in `prev`; the other bits stay
/// as they are.
pub open spec fn restored(cpsr: u32, prev: u32) -> u32 {
    cpsr & (prev | !AIF_MASK)
}

/// Masks IRQs, FIQs and SErrors in the `CPSR` register `cpsr`.
///
/// Returns the previous state of the mask bits, to be passed to [`restore`].
pub fn mask(cpsr: &mut u32) -> (prev: u32)
    ensures
        prev == saved_state(*old(cpsr)),
        *final(cpsr) == masked(*old(cpsr)),
        all_masked(*final(cpsr)),
{
    let cur = *cpsr;
    *cpsr = cur | AIF_MASK;
    let m = *cpsr;
    assert(m & 0x1c0u32 == 0x1c0u32) by (bit_vector)
        requires
            m == cur | 0x1c0u32,
    ;
    cur & AIF_MASK
}

/// Restores the previous mask state `prev`, as returned by [`mask`]: reads `CPSR`, clears
/// the A, I and F bits that are clear in `prev`, and writes it back.
pub fn restore(cpsr: &mut u32, prev: u32)
    ensures
        *final(cpsr) == restored(*old(cpsr), prev),
{
    let mask = prev | !AIF_MASK;
    *cpsr = *cpsr & mask;
}

/// `mask` followed at once by `restore` of the value it returned leaves `CPSR` bit for
/// bit as it was before `mask`.
pub proof fn lemma_mask_then_restore(cpsr: u32)
    ensures
        restored(masked(cpsr), saved_state(cpsr)) == cpsr,
{
    assert(((cpsr | 0x1c0u32) & ((cpsr & 0x1c0u32) | !0x1c0u32)) == cpsr) by (bit_vector);
}

} // verus!

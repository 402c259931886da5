//! The exception mask of 64-bit Arm: the D, A, I and F bits of the `DAIF` register.
use vstd::prelude::*;

verus! {

/// The D, A, I and F bits of `DAIF` (bits 9 to 6): setting them masks Debug, SError,
/// IRQ and FIQ exceptions.
pub const DAIF_MASK: u64 = 0x3c0;

/// Whether every maskable exception is masked in the `DAIF` value `daif`.
pub open spec fn all_masked(daif: u64) -> bool {
    daif & DAIF_MASK == DAIF_MASK
}

/// The value of `DAIF` after `msr DAIFSet, #0xf` on the value `daif`.
pub open spec fn masked(daif: u64) -> u64 {
    daif | DAIF_MASK
}

/// The value of `DAIF` after restoring the saved value `prev` on the value `daif`: the
/// saved value is written back whole.
pub open spec fn restored(daif: u64, prev: u64) -> u64 {
    prev
}

/// Masking leaves every maskable exception masked.
pub proof fn lemma_masked_is_all_masked(daif: u64)
    ensures
        all_masked(masked(daif)),
{
    let m = masked(daif);
    assert(m & 0x3c0u64 == 0x3c0u64) by (bit_vector)
        requires
            m == daif | 0x3c0u64,
    ;
}

/// Masks IRQs, FIQs, SErrors and Debug exceptions in the `DAIF` register `daif`.
///
/// Returns the previous value of the register, to be passed to [`restore`].
pub fn mask(daif: &mut u64) -> (prev: u64)
    ensures
        prev == *old(daif),
        *final(daif) == masked(*old(daif)),
        all_masked(*final(daif)),
{
    let prev = *daif;
    *daif = prev | DAIF_MASK;
    proof {
        lemma_masked_is_all_masked(prev);
    }
    prev
}

/// Restores the previous exception mask value `prev`, as returned by [`mask`].
pub fn restore(daif: &mut u64, prev: u64)
    ensures
        *final(daif) == restored(*old(daif), prev),
{
    *daif = prev;
}

/// `mask` followed at once by `restore` of the value it returned leaves `DAIF` bit for
/// bit as it was before `mask`.
pub proof fn lemma_mask_then_restore(daif: u64)
    ensures
        restored(masked(daif), daif) == daif,
{
}

} // verus!

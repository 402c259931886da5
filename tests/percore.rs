use percore::criticalcell::CriticalCell;
use percore::exceptions::{aarch32, aarch64, exception_free, ExceptionFree, MaskStack};
use percore::{Cores, PerCore};

/// A core identity that always reports the index `I`.
struct Fixed<const I: usize>;

impl<const I: usize> Cores for Fixed<I> {
    fn core_index() -> usize {
        I
    }
}

#[test]
fn get_returns_slot_of_reported_index() {
    let values = [10u32, 20, 30, 40];
    assert_eq!(*PerCore::<[u32; 4], Fixed<0>>::new(values).get(), 10);
    assert_eq!(*PerCore::<[u32; 4], Fixed<1>>::new(values).get(), 20);
    assert_eq!(*PerCore::<[u32; 4], Fixed<2>>::new(values).get(), 30);
    assert_eq!(*PerCore::<[u32; 4], Fixed<3>>::new(values).get(), 40);
}

#[test]
fn distinct_identities_reach_distinct_slots() {
    let a = PerCore::<[u32; 2], Fixed<0>>::new([7, 8]);
    let b = PerCore::<[u32; 2], Fixed<1>>::new([7, 8]);
    assert_eq!(*a.get(), 7);
    assert_eq!(*b.get(), 8);
    assert_eq!(*a.slot(1), 8);
}

#[test]
fn slot_by_index() {
    let p = PerCore::<[u32; 3], Fixed<0>>::new([5, 6, 9]);
    assert_eq!(*p.slot(0), 5);
    assert_eq!(*p.slot(1), 6);
    assert_eq!(*p.slot(2), 9);
}

#[test]
fn aarch64_mask_sets_daif_bits() {
    let mut daif: u64 = 0;
    let prev = aarch64::mask(&mut daif);
    assert_eq!(prev, 0);
    assert_eq!(daif, 0x3c0);
}

#[test]
fn aarch64_mask_then_restore_round_trip() {
    for start in [0u64, 0x80, 0x3c0, 0x6000_0100, 0xffff_ffff_ffff_fc3f] {
        let mut daif = start;
        let prev = aarch64::mask(&mut daif);
        assert_eq!(daif, start | 0x3c0);
        aarch64::restore(&mut daif, prev);
        assert_eq!(daif, start);
    }
}

#[test]
fn aarch32_mask_saves_aif_bits() {
    let mut cpsr: u32 = 0x6000_0093;
    let prev = aarch32::mask(&mut cpsr);
    assert_eq!(prev, 0x80);
    assert_eq!(cpsr, 0x6000_01d3);
}

#[test]
fn aarch32_mask_then_restore_round_trip() {
    for start in [0x13u32, 0x93, 0x1d3, 0x6000_0053, 0xffff_fe3f] {
        let mut cpsr = start;
        let prev = aarch32::mask(&mut cpsr);
        assert_eq!(prev, start & 0x1c0);
        aarch32::restore(&mut cpsr, prev);
        assert_eq!(cpsr, start);
    }
}

#[test]
fn aarch32_restore_keeps_other_bits() {
    // Bits outside A, I and F that changed inside the region are kept.
    let mut cpsr: u32 = 0x13;
    let prev = aarch32::mask(&mut cpsr);
    cpsr |= 0x2000_0000;
    aarch32::restore(&mut cpsr, prev);
    assert_eq!(cpsr, 0x2000_0013);
}

#[test]
fn nested_regions_unwind_in_order() {
    let mut state = MaskStack::new(0x0);
    assert_eq!(state.depth(), 0);
    let outer = state.enter();
    assert_eq!(state.depth(), 1);
    assert_eq!(state.daif(), 0x3c0);
    let inner = state.enter();
    assert_eq!(state.depth(), 2);
    state.exit(inner);
    assert_eq!(state.depth(), 1);
    assert_eq!(state.daif(), 0x3c0);
    // The outer region still yields a token after the inner one has been left.
    let cell = CriticalCell::new(5u32);
    let token = ExceptionFree::new(&state);
    assert_eq!(*cell.borrow(token), 5);
    state.exit(outer);
    assert_eq!(state.depth(), 0);
    assert_eq!(state.daif(), 0x0);
}

#[test]
fn exception_free_restores_mask() {
    let mut state = MaskStack::new(0x80);
    let cell = CriticalCell::new(3u64);
    let r = exception_free(&mut state, |token| *cell.borrow(token) + 1);
    assert_eq!(r, 4);
    assert_eq!(state.daif(), 0x80);
    assert_eq!(state.depth(), 0);
}

#[test]
fn reads_through_one_token_agree() {
    let mut state = MaskStack::new(0);
    let guard = state.enter();
    let cell = CriticalCell::new(17u32);
    let token = ExceptionFree::new(&state);
    let first = *cell.borrow(token);
    let second = *cell.borrow(token);
    assert_eq!(first, second);
    assert_eq!(first, 17);
    state.exit(guard);
}

#[test]
fn locked_counters_per_core() {
    let mut counters = PerCore::<[CriticalCell<u32>; 4], Fixed<0>>::new([
        CriticalCell::new(42),
        CriticalCell::new(42),
        CriticalCell::new(42),
        CriticalCell::new(42),
    ]);
    let mut state = MaskStack::new(0);
    let guard = state.enter();
    {
        let token = ExceptionFree::new(&state);
        let counter = counters.get_mut().borrow_mut(token);
        assert_eq!(*counter, 42);
        *counter = 43;
    }
    {
        let token = ExceptionFree::new(&state);
        assert_eq!(*counters.get().borrow(token), 43);
        for i in 1..4 {
            assert_eq!(*counters.slot(i).borrow(token), 42);
        }
    }
    state.exit(guard);
    assert_eq!(state.daif(), 0);
}

#[test]
fn slot_mut_changes_one_slot() {
    let mut p = PerCore::<[u32; 3], Fixed<2>>::new([1, 2, 3]);
    *p.slot_mut(1) = 20;
    *p.get_mut() = 30;
    assert_eq!(*p.slot(0), 1);
    assert_eq!(*p.slot(1), 20);
    assert_eq!(*p.slot(2), 30);
}

#[test]
fn boxed_with_default_values() {
    let p = PerCore::<Box<[u32]>, Fixed<3>>::new_with_default(4);
    assert_eq!(p.len(), 4);
    for i in 0..4 {
        assert_eq!(*p.slot(i), 0);
    }
    assert_eq!(*p.get(), 0);
}

#[test]
fn boxed_with_default_empty() {
    let p = PerCore::<Box<[u64]>, Fixed<0>>::new_with_default(0);
    assert_eq!(p.len(), 0);
}

#[test]
fn boxed_get_current_slot() {
    let values: Box<[u32]> = vec![4, 5, 6].into_boxed_slice();
    let p = PerCore::<Box<[u32]>, Fixed<1>>::new(values);
    assert_eq!(p.len(), 3);
    assert_eq!(*p.get(), 5);
}

#[test]
fn boxed_locked_values_default() {
    let p = PerCore::<Box<[CriticalCell<u8>]>, Fixed<0>>::new(
        vec![CriticalCell::new(1u8), CriticalCell::new(2u8)].into_boxed_slice(),
    );
    let mut state = MaskStack::new(0);
    let guard = state.enter();
    let token = ExceptionFree::new(&state);
    assert_eq!(*p.get().borrow(token), 1);
    assert_eq!(*p.slot(1).borrow(token), 2);
    state.exit(guard);
}

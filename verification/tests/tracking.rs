use std::alloc::System;

use trallocator::Trallocator;

#[test]
pub fn trace_alloc() {
    let mut tralloc: Trallocator<System> = Trallocator::new(System);
    assert_eq!(tralloc.usage(), 0);

    tralloc.record_alloc(32);
    assert_eq!(tralloc.usage(), 32);

    tralloc.record_dealloc(32);
    assert_eq!(tralloc.usage(), 0);
    assert_eq!(tralloc.max_usage(), 32);
}

#[test]
fn new_starts_at_zero() {
    let t = Trallocator::new(System);
    assert_eq!(t.usage(), 0);
    assert_eq!(t.max_usage(), 0);
}

#[test]
fn usage_after_single_alloc() {
    let mut t = Trallocator::new(System);
    t.record_alloc(5);
    assert_eq!(t.usage(), 5);
}

#[test]
fn balanced_pairs_return_to_zero() {
    let mut t = Trallocator::new(System);
    assert_eq!(t.usage(), 0);
    let sizes: [usize; 4] = [8, 16, 24, 1024];
    for s in sizes {
        t.record_alloc(s);
        t.record_dealloc(s);
        assert_eq!(t.usage(), 0);
    }
}

#[test]
fn peak_survives_deallocation() {
    let mut t = Trallocator::new(System);
    t.record_alloc(100);
    t.record_dealloc(100);
    assert_eq!(t.usage(), 0);
    assert_eq!(t.max_usage(), 100);
}

#[test]
fn peak_lags_one_update_behind() {
    let mut t = Trallocator::new(System);
    t.record_alloc(100);
    // The peak absorbs the usage as it stood before each update, so a lone
    // allocation is not yet reflected in it.
    assert_eq!(t.max_usage(), 0);
    t.record_alloc(1);
    assert_eq!(t.max_usage(), 100);
}

#[test]
fn clear_max_usage_sets_peak_to_current_usage() {
    let mut t = Trallocator::new(System);
    t.record_alloc(10);
    t.record_alloc(20);
    t.record_dealloc(20);
    // Peak (30, folded in by the deallocation) is above current usage (10).
    assert_eq!(t.usage(), 10);
    assert_eq!(t.max_usage(), 30);
    t.clear_max_usage();
    assert_eq!(t.max_usage(), t.usage());
    assert_eq!(t.max_usage(), 10);
}

#[test]
fn clear_max_usage_when_idle() {
    let mut t = Trallocator::new(System);
    t.record_alloc(64);
    t.record_dealloc(64);
    assert_eq!(t.max_usage(), 64);
    t.clear_max_usage();
    assert_eq!(t.max_usage(), 0);
}

fn run_interleaving(ops: &[(bool, usize)]) -> (usize, usize) {
    let mut t = Trallocator::new(System);
    for &(is_alloc, size) in ops {
        if is_alloc {
            t.record_alloc(size);
        } else {
            t.record_dealloc(size);
        }
    }
    (t.usage(), t.max_usage())
}

#[test]
fn interleaved_balanced_callers_return_to_zero() {
    // Every order in which the counter updates of two callers can
    // interleave, one caller allocating and freeing 32 bytes and the other
    // 48; the usage counter must come back to zero whatever the order.
    let interleavings: [[(bool, usize); 4]; 6] = [
        [(true, 32), (false, 32), (true, 48), (false, 48)],
        [(true, 32), (true, 48), (false, 32), (false, 48)],
        [(true, 32), (true, 48), (false, 48), (false, 32)],
        [(true, 48), (true, 32), (false, 32), (false, 48)],
        [(true, 48), (true, 32), (false, 48), (false, 32)],
        [(true, 48), (false, 48), (true, 32), (false, 32)],
    ];
    for ops in &interleavings {
        let (usage, _) = run_interleaving(ops);
        assert_eq!(usage, 0);
    }
}

#[test]
fn interleaved_three_callers_return_to_zero() {
    let ops: [(bool, usize); 6] =
        [(true, 7), (true, 7), (false, 7), (true, 7), (false, 7), (false, 7)];
    let (usage, _) = run_interleaving(&ops);
    assert_eq!(usage, 0);
}

#[test]
fn usage_wraps_like_a_machine_word() {
    let mut t = Trallocator::new(System);
    // Deallocating more than was allocated is a caller contract violation;
    // the counter wraps rather than detecting it.
    t.record_dealloc(1);
    assert_eq!(t.usage(), usize::MAX);
    t.record_alloc(1);
    assert_eq!(t.usage(), 0);
}

#[test]
fn borrow_reads_the_inner_allocator() {
    let t = Trallocator::new(17u32);
    assert_eq!(*t.borrow(), 17);
}

#[test]
fn borrow_mut_bypasses_tracking() {
    // The inner "allocator" here is a plain vector; work done through the
    // untracked escape hatch must leave both counters unchanged.
    let mut t = Trallocator::new(Vec::<u8>::new());
    t.record_alloc(8);
    let inner = t.borrow_mut();
    inner.push(1);
    inner.push(2);
    assert_eq!(t.usage(), 8);
    assert_eq!(t.max_usage(), 0);
    assert_eq!(t.borrow().len(), 2);
}

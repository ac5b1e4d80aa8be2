use core::mem::MaybeUninit;
use kernel_heap::fixed_block::{
    block_size, list_index, FixedSizeBlockAllocator, LockFixedSizeBlockAllocator, BLOCK_COUNT,
};
use kernel_heap::spin_lock::SpinLock;

fn region(len: usize) -> &'static mut [MaybeUninit<u8>] {
    Box::leak(vec![MaybeUninit::<u8>::uninit(); len].into_boxed_slice())
}

fn ready_allocator() -> FixedSizeBlockAllocator {
    let mut a = FixedSizeBlockAllocator::new();
    a.init(region(64 * 1024));
    a
}

#[test]
fn classes_are_the_configured_table() {
    let sizes: Vec<usize> = (0..BLOCK_COUNT).map(block_size).collect();
    assert_eq!(sizes, vec![8, 16, 32, 64, 128, 256, 512, 1024, 2048]);
}

#[test]
fn list_index_picks_smallest_fitting_class() {
    assert_eq!(list_index(1, 1), Some(0));
    assert_eq!(list_index(8, 8), Some(0));
    assert_eq!(list_index(9, 1), Some(1));
    assert_eq!(list_index(24, 8), Some(2));
    assert_eq!(list_index(30, 8), Some(2));
    assert_eq!(list_index(4, 64), Some(3));
    assert_eq!(list_index(2048, 8), Some(8));
    assert_eq!(list_index(2049, 8), None);
    assert_eq!(list_index(4096, 8), None);
    assert_eq!(list_index(8, 4096), None);
    assert_eq!(list_index(0, 1), Some(0));
}

#[test]
fn new_allocator_has_nothing_to_give() {
    let mut a = FixedSizeBlockAllocator::new();
    assert_eq!(a.fallback_size(), 0);
    assert_eq!(a.acquire(16, 8), None);
    assert_eq!(a.acquire(4096, 8), None);
    for i in 0..BLOCK_COUNT {
        assert_eq!(a.free_list_len(i), 0);
    }
}

#[test]
fn init_gives_the_fallback_its_region() {
    let a = ready_allocator();
    assert!(a.fallback_size() <= 64 * 1024);
    assert!(a.fallback_size() + 14 >= 64 * 1024);
    assert_eq!(a.fallback_used(), 0);
}

#[test]
fn size_class_scenario() {
    let mut a = ready_allocator();
    let block = a.acquire(24, 8).expect("a 32-byte block");
    assert_eq!(block % 32, 0);
    assert_eq!(a.fallback_used(), 32);

    let big = a.acquire(4096, 8).expect("a block from the fallback heap");
    assert_eq!(big % 8, 0);
    assert_eq!(a.fallback_used(), 32 + 4096);

    assert!(a.release(block, 24, 8));
    assert_eq!(a.free_list_len(2), 1);
    assert_eq!(a.fallback_used(), 32 + 4096);

    let again = a.acquire(30, 8).expect("the released block");
    assert_eq!(again, block);
    assert_eq!(a.free_list_len(2), 0);
    assert_eq!(a.fallback_used(), 32 + 4096);

    assert!(!a.release(big, 4096, 8));
    assert_eq!(a.free_list_len(2), 0);
}

#[test]
fn round_trip_keeps_free_list_length() {
    let mut a = ready_allocator();
    let first = a.acquire(100, 4).unwrap();
    assert!(a.release(first, 100, 4));
    let before = a.free_list_len(4);
    let used = a.fallback_used();
    let b = a.acquire(100, 4).unwrap();
    assert!(a.release(b, 100, 4));
    assert_eq!(a.free_list_len(4), before);
    assert_eq!(a.fallback_used(), used);
}

#[test]
fn round_trip_on_empty_list_leaves_block_cached() {
    let mut a = ready_allocator();
    let b = a.acquire(24, 8).unwrap();
    assert!(a.release(b, 24, 8));
    assert_eq!(a.free_list_len(2), 1);
}

#[test]
fn repeated_cycles_reuse_blocks() {
    let mut a = ready_allocator();
    let n = 10;
    let first: Vec<usize> = (0..n).map(|_| a.acquire(64, 64).unwrap()).collect();
    let used = a.fallback_used();
    assert_eq!(used, 64 * n);
    for &b in &first {
        assert!(a.release(b, 64, 64));
    }
    for _ in 0..5 {
        let blocks: Vec<usize> = (0..n).map(|_| a.acquire(64, 64).unwrap()).collect();
        assert_eq!(a.fallback_used(), used);
        assert_eq!(a.free_list_len(3), 0);
        let mut sorted = blocks.clone();
        sorted.sort();
        let mut expected = first.clone();
        expected.sort();
        assert_eq!(sorted, expected);
        for &b in &blocks {
            assert!(a.release(b, 64, 64));
        }
        assert_eq!(a.free_list_len(3), n);
    }
}

#[test]
fn small_requests_round_up_to_a_hole_header() {
    let mut a = ready_allocator();
    let b = a.acquire(8, 8).unwrap();
    assert_eq!(b % 8, 0);
    assert_eq!(a.fallback_used(), 16);
}

#[test]
fn class_blocks_are_aligned_to_their_size() {
    let mut a = ready_allocator();
    let b = a.acquire(1500, 2).unwrap();
    assert_eq!(b % 2048, 0);
    assert_eq!(a.fallback_used(), 2048);
}

#[test]
fn exhausted_fallback_reports_none() {
    let mut a = FixedSizeBlockAllocator::new();
    a.init(region(4096));
    assert_eq!(a.acquire(8192, 8), None);
    assert_eq!(a.fallback_used(), 0);
}

#[test]
fn huge_alignment_is_refused() {
    let mut a = ready_allocator();
    assert_eq!(a.acquire(1, 1 << 62), None);
    assert_eq!(a.acquire(1, 1 << 63), None);
    assert_eq!(a.fallback_used(), 0);
}

#[test]
fn bad_alignment_is_refused_by_fallback() {
    let mut a = ready_allocator();
    assert_eq!(a.acquire(4096, 3), None);
    assert_eq!(a.fallback_used(), 0);
}

#[test]
fn locked_allocator_releases_lock_after_each_request() {
    let mut a = LockFixedSizeBlockAllocator(SpinLock::new(ready_allocator()));
    let b = a.acquire(24, 8).unwrap();
    assert!(!a.0.is_locked());
    assert!(a.release(b, 24, 8));
    assert!(!a.0.is_locked());
    assert_eq!(a.acquire(24, 8), Some(b));
    assert!(!a.0.is_locked());
}

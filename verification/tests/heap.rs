use system::buddy_system_allocator::{fits_size_classes, AllocErr, Heap};

#[test]
fn heap_new_is_empty() {
    let heap = Heap::new();
    assert_eq!(heap.stats_alloc_user(), 0);
    assert_eq!(heap.stats_alloc_actual(), 0);
    assert_eq!(heap.stats_total_bytes(), 0);
    let mut heap = heap;
    assert_eq!(heap.allocate(8, 8), Err(AllocErr));
}

#[test]
fn heap_empty_is_new() {
    let mut heap = Heap::empty();
    assert_eq!(heap.stats_total_bytes(), 0);
    assert_eq!(heap.allocate(8, 8), Err(AllocErr));
}

#[test]
fn heap_top_buddy_check() {
    let mut heap = Heap::new();
    assert!(!heap.top_buddy_is_free(0x1000));
    heap.add_to_heap(0x1000, 0x2000);
    // No block of the last class is free.
    assert!(!heap.top_buddy_is_free(0x1000));
}

#[test]
fn heap_add_to_heap_counts_aligned_bytes() {
    let mut heap = Heap::new();
    // 0x1001 rounds up to 0x1008, 0x2005 down to 0x2000.
    heap.add_to_heap(0x1001, 0x2005);
    assert_eq!(heap.stats_total_bytes(), 0x2000 - 0x1008);
}

#[test]
fn heap_init_adds_range() {
    let mut heap = Heap::new();
    heap.init(0x1000, 0x1000);
    assert_eq!(heap.stats_total_bytes(), 0x1000);
}

#[test]
fn heap_allocate_smallest_block_at_lowest_address() {
    let mut heap = Heap::new();
    heap.add_to_heap(0x1000, 0x2000);
    let p = heap.allocate(8, 8).unwrap();
    assert_eq!(p, 0x1000);
    assert_eq!(heap.stats_alloc_user(), 8);
    assert_eq!(heap.stats_alloc_actual(), 8);
    let q = heap.allocate(8, 8).unwrap();
    assert_eq!(q, 0x1008);
}

#[test]
fn heap_allocate_rounds_size_to_power_of_two() {
    let mut heap = Heap::new();
    heap.add_to_heap(0x1000, 0x2000);
    let p = heap.allocate(100, 8).unwrap();
    assert_eq!(p, 0x1000);
    assert_eq!(heap.stats_alloc_user(), 100);
    assert_eq!(heap.stats_alloc_actual(), 128);
}

#[test]
fn heap_allocate_respects_alignment() {
    let mut heap = Heap::new();
    heap.add_to_heap(0x1000, 0x2000);
    let _a = heap.allocate(8, 8).unwrap();
    let b = heap.allocate(8, 256).unwrap();
    assert_eq!(b % 256, 0);
    assert_eq!(heap.stats_alloc_actual(), 8 + 256);
}

#[test]
fn heap_allocate_fails_when_too_large() {
    let mut heap = Heap::new();
    heap.add_to_heap(0x1000, 0x2000);
    assert_eq!(heap.allocate(0x2000, 8), Err(AllocErr));
    assert_eq!(heap.stats_alloc_user(), 0);
}

#[test]
fn heap_allocate_fails_on_empty_heap() {
    let mut heap = Heap::new();
    assert_eq!(heap.allocate(8, 8), Err(AllocErr));
}

#[test]
fn heap_allocate_dealloc_roundtrip() {
    let mut heap = Heap::new();
    heap.add_to_heap(0x1000, 0x2000);
    let p = heap.allocate(24, 8).unwrap();
    heap.dealloc(p, 24, 8);
    assert_eq!(heap.stats_alloc_user(), 0);
    assert_eq!(heap.stats_alloc_actual(), 0);
    assert_eq!(heap.stats_total_bytes(), 0x1000);
    // After merging back, the whole block can be handed out again.
    let whole = heap.allocate(0x1000, 8).unwrap();
    assert_eq!(whole, 0x1000);
}

#[test]
fn heap_allocations_do_not_overlap() {
    let mut heap = Heap::new();
    heap.add_to_heap(0x1000, 0x2000);
    let a = heap.allocate(64, 8).unwrap();
    let b = heap.allocate(64, 8).unwrap();
    assert!(a + 64 <= b || b + 64 <= a);
}

#[test]
fn heap_add_unaligned_range_splits_into_blocks() {
    let mut heap = Heap::new();
    // [0x1008, 0x1018): two 8-byte blocks (0x1008 is only 8-aligned).
    heap.add_to_heap(0x1008, 0x1018);
    assert_eq!(heap.stats_total_bytes(), 16);
    assert_eq!(heap.allocate(16, 8), Err(AllocErr));
    assert_eq!(heap.allocate(8, 8).unwrap() % 8, 0);
}

#[test]
fn range_of_four_gib_without_oversized_block() {
    assert!(fits_size_classes(0x1000, 0x1_0000_0800));
    assert!(!fits_size_classes(0x1000, 0x2_0000_0000));
    assert!(!fits_size_classes(0x1_0000_0000, 0x2_0000_0000));
    assert!(fits_size_classes(0x8, 0x1_0000_0000));
    let mut heap = Heap::new();
    heap.add_to_heap(0x1000, 0x1_0000_0800);
    assert_eq!(heap.stats_total_bytes(), 0x1_0000_0800 - 0x1000);
    assert!(heap.allocate(0x8000_0000, 0x8000_0000).is_ok());
}

#[test]
fn heap_bytes_balance() {
    let mut heap = Heap::new();
    heap.add_to_heap(0x1000, 0x2000);
    assert_eq!(heap.stats_total_bytes(), 0x1000);
    let p = heap.allocate(0x800, 8).ok().unwrap();
    let q = heap.allocate(0x800, 8).ok().unwrap();
    assert_eq!(heap.stats_alloc_actual(), heap.stats_total_bytes());
    assert!(heap.allocate(8, 8).is_err());
    heap.dealloc(p, 0x800, 8);
    heap.dealloc(q, 0x800, 8);
    assert_eq!(heap.stats_alloc_actual(), 0);
    assert!(heap.allocate(0x1000, 0x1000).is_ok());
}

#[test]
fn heap_takes_last_block_and_merges_back() {
    let mut heap = Heap::new();
    heap.add_to_heap(0x1000, 0x2000);
    heap.add_to_heap(0x3000, 0x4000);
    assert_eq!(heap.allocate(0x1000, 0x1000), Ok(0x3000));
    assert_eq!(heap.allocate(0x1000, 0x1000), Ok(0x1000));

    let mut heap = Heap::new();
    heap.add_to_heap(0x2000, 0x4000);
    let a = heap.allocate(0x1000, 0x1000).ok().unwrap();
    assert_eq!(a, 0x2000);
    let b = heap.allocate(0x1000, 0x1000).ok().unwrap();
    assert_eq!(b, 0x3000);
    assert!(heap.allocate(0x2000, 0x2000).is_err());
    heap.dealloc(a, 0x1000, 0x1000);
    heap.dealloc(b, 0x1000, 0x1000);
    assert_eq!(heap.allocate(0x2000, 0x2000), Ok(0x2000));
}

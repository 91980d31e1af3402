use kernel_core::config::KERNEL_HEAP_SIZE;
use kernel_core::heap_allocator::{handle_alloc_error, heap_test, init_heap, KernelHeap};

#[test]
fn test_init_heap_records_arena() {
    let mut h = KernelHeap::empty();
    assert!(!h.initialized);
    init_heap(&mut h, 0x8030_0000);
    assert!(h.initialized);
    assert_eq!(h.start, 0x8030_0000);
    assert_eq!(h.size, KERNEL_HEAP_SIZE);
}

#[test]
fn test_handle_alloc_error_diagnostic() {
    let d = handle_alloc_error(4096, 8);
    assert_eq!(d.size, 4096);
    assert_eq!(d.align, 8);
}

#[test]
fn test_heap_test_runs() {
    heap_test();
}

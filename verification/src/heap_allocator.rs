//! Bootstrap record of the kernel's dynamic-allocation arena.
//!
//! The arena is a single statically reserved byte region handed to the
//! underlying dynamic allocator exactly once at boot, before anything may
//! allocate. The hand-over itself is a raw-memory operation performed at
//! the kernel's boundary; this module owns the bookkeeping that makes the
//! once-only discipline and the arena bounds checkable, and the diagnostic
//! for the fatal exhaustion path.

use vstd::prelude::*;

verus! {

use crate::config::KERNEL_HEAP_SIZE;

/// Diagnostic carried by the fatal path when the arena cannot satisfy an
/// allocation: the requested size and alignment. The kernel aborts with
/// it, since there is no fallback allocation source.
#[derive(Clone, Copy, Debug, PartialEq, Eq, Structural)]
pub struct HeapAllocError {
    pub size: usize,
    pub align: usize,
}

/// Bootstrap state of the kernel heap: whether the one-time
/// initialization ran, and the byte range given to the underlying
/// allocator.
pub struct KernelHeap {
    pub initialized: bool,
    pub start: usize,
    pub size: usize,
}

impl KernelHeap {
    /// Once initialized, the arena is exactly the reserved region and its
    /// end fits in the address space.
    pub open spec fn wf(self) -> bool {
        self.initialized ==> (self.size == KERNEL_HEAP_SIZE && self.start + self.size
            <= usize::MAX)
    }

    /// True when `addr` lies inside the arena handed to the allocator.
    pub open spec fn arena_contains(self, addr: int) -> bool {
        self.initialized && self.start <= addr < self.start + self.size
    }

    /// The pre-boot state: no arena yet, nothing may allocate.
    pub fn empty() -> (r: Self)
        ensures
            r.wf(),
            !r.initialized,
    {
        KernelHeap { initialized: false, start: 0, size: 0 }
    }
}

/// Records the one-time hand-over of the statically reserved byte region
/// at `start` to the underlying allocator. The `requires` forbids
/// re-initialization: the arena is supplied exactly once, before the
/// first dynamic allocation anywhere in the kernel.
pub fn init_heap(heap: &mut KernelHeap, start: usize)
    requires
        !old(heap).initialized,
        start + KERNEL_HEAP_SIZE <= usize::MAX,
    ensures
        final(heap).wf(),
        final(heap).initialized,
        final(heap).start == start,
        final(heap).size == KERNEL_HEAP_SIZE,
        forall|a: int| final(heap).arena_contains(a) <==> start <= a < start + KERNEL_HEAP_SIZE,
{
    heap.initialized = true;
    heap.start = start;
    heap.size = KERNEL_HEAP_SIZE;
}

/// Builds the diagnostic for a failed allocation of the given size and
/// alignment; the caller aborts with it.
pub fn handle_alloc_error(size: usize, align: usize) -> (r: HeapAllocError)
    ensures
        r.size == size,
        r.align == align,
{
    HeapAllocError { size, align }
}

/// Exercises the heap-backed containers the kernel depends on after
/// bootstrap: a boxed value keeps its contents, and a grown vector holds
/// exactly the values pushed into it, in order.
pub fn heap_test() {
    let a = Box::new(5usize);
    let av = *a;
    assert(av == 5);
    let mut v: Vec<usize> = Vec::new();
    let mut i: usize = 0;
    while i < 500
        invariant
            i <= 500,
            v@.len() == i,
            forall|k: int| 0 <= k < i ==> v@[k] == k,
        decreases 500 - i,
    {
        v.push(i);
        i = i + 1;
    }
    let mut j: usize = 0;
    while j < 500
        invariant
            j <= 500,
            v@.len() == 500,
            forall|k: int| 0 <= k < 500 ==> v@[k] == k,
        decreases 500 - j,
    {
        let x = v[j];
        assert(x == j);
        j = j + 1;
    }
}

} // verus!

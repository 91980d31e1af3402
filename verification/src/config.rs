//! Compile-time configuration constants: sizes and bounds of the statically
//! reserved regions that the kernel hands out at boot.

use vstd::prelude::*;

verus! {

/// Size in bytes of one physical frame / page.
pub const PAGE_SIZE: usize = 4096;

/// Size in bytes of each application's user-mode stack.
pub const USER_STACK_SIZE: usize = 4096;

/// Size in bytes of each application's kernel-mode stack.
pub const KERNEL_STACK_SIZE: usize = 4096 * 20;

/// Largest number of application images the loader accepts.
pub const MAX_APP_NUM: usize = 16;

/// Physical base address of the first application slot.
pub const APP_BASE_ADDRESS: usize = 0x80400000;

/// Size in bytes of each application slot; also the upper bound on one image.
pub const APP_SIZE_LIMIT: usize = 0x20000;

/// Size in bytes of the statically reserved kernel heap arena.
pub const KERNEL_HEAP_SIZE: usize = 0x300000;

/// Exclusive upper bound of usable physical memory.
pub const MEMORY_END: usize = 0x80800000;

/// Number of distinct syscall numbers that are accounted per task.
pub const MAX_SYSCALL_NUM: usize = 500;

/// Size in bytes that one saved trap-context snapshot occupies at the top of
/// a kernel stack. The snapshot layout itself belongs to the trap collaborator;
/// this core records an entry pc and a user stack pointer.
pub const TRAP_CONTEXT_SIZE: usize = 16;

} // verus!

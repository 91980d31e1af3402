//! Resource-management substrate of a small bare-metal kernel.
//!
//! The crate owns the bookkeeping for every unit of physical memory the
//! kernel can hand out: a stack-discipline frame allocator, the bootstrap
//! state of the kernel's dynamic-allocation arena, the per-task control
//! block, and the loader that places application images into fixed slots
//! and prepares their first mode-switch context.


pub mod config;
pub mod frame_allocator;
pub mod heap_allocator;
pub mod task;
pub mod trap;
pub mod loader;

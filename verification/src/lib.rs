//! Kernel logic of a small RISC-V teaching kernel: memory layout constants,
//! physical addresses and page numbers, the stack-like physical frame
//! allocator, task control blocks and the task table, trap contexts and
//! system-call decoding.

pub mod config;
pub mod address;
pub mod frame;
pub mod task;
pub mod trap;
pub mod syscall;

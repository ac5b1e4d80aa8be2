//! The dynamic-memory core of a small x86_64 kernel: a mutual-exclusion cell,
//! a segregated size-class allocator over a first-fit fallback heap, and the
//! decisions of the heap bootstrap, together with the kernel's plain-value
//! helpers (clock, colours, scancodes, commands).
pub mod spin_lock;
pub mod fallback;
pub mod fixed_block;
pub mod bootstrap;
pub mod text;
pub mod date_time;
pub mod colors;
pub mod list;
pub mod commands;
pub mod keyboard;
pub mod exit_code;
pub mod writer;
pub mod syscalls;
pub mod cycles;
pub mod channel;

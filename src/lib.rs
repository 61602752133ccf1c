//! Allocation tracking for an allocator interposer.
//!
//! The interposer's entry points live outside this library: they resolve the
//! platform allocator, call it, and hand the library plain values. The library
//! decides, for each call, whether it is instrumented at all (the per-thread
//! recursion guard) and which events are reported to the profiler, and in which
//! order relative to the call of the real allocator.

pub mod guard;
pub mod event;
pub mod intercept;
pub mod trace;
pub mod tracker;

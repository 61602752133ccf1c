//! The calls that are intercepted and the events reported for them.
//!
//! Addresses are opaque integers: this library never reads the memory behind
//! them. Zero is the null address.
//!
//! No event is ever reported for the null address: a `malloc`, `realloc` or
//! `calloc` that fails reports no block, and `free(NULL)`, a no-op, reports no
//! release. Every event thus stands for a real block, and the number of
//! releases reported never exceeds the number of blocks reported.
//!
//! A release is reported before the real allocator is called, so that an
//! address is never shown live after its block was given back. The price is a
//! `realloc` that fails after its release was reported: its block stays
//! allocated, yet the profiler has seen it released.
use vstd::prelude::*;

verus! {

/// Call-stack depth that every reported event is captured with.
pub const CALLSTACK_DEPTH: i32 = 5;

/// An event handed to the profiler.
#[derive(Clone, Copy, Debug, PartialEq, Eq, Structural)]
pub enum Event {
    /// The block at `addr`, of `size` bytes, is now live.
    Alloc { addr: usize, size: usize },
    /// The block at `addr` is about to be released.
    Free { addr: usize },
}

/// A call of one of the four allocator entry points, with its arguments.
#[derive(Clone, Copy, Debug, PartialEq, Eq, Structural)]
pub enum Call {
    Malloc { size: usize },
    Free { addr: usize },
    Realloc { addr: usize, size: usize },
    Calloc { count: usize, size: usize },
}

/// `count * size`, clamped to `usize::MAX` where the product does not fit.
pub open spec fn zeroed_size_spec(count: usize, size: usize) -> usize {
    if count * size > usize::MAX {
        usize::MAX
    } else {
        (count * size) as usize
    }
}

/// Size reported for `calloc(count, size)`: the product, saturated.
pub fn zeroed_size(count: usize, size: usize) -> (r: usize)
    ensures
        r == zeroed_size_spec(count, size),
{
    match count.checked_mul(size) {
        Some(total) => total,
        None => usize::MAX,
    }
}

/// A successful `calloc` whose `count * size` does not fit in `usize` is
/// reported with the clamped size `usize::MAX`.
pub proof fn lemma_overflowing_calloc_reports_max(count: usize, size: usize, result: usize)
    requires
        count * size > usize::MAX,
        result != 0,
    ensures
        (Call::Calloc { count, size }).after_spec(result) == Some(
            Event::Alloc { addr: result, size: usize::MAX },
        ),
{
}

impl Call {
    /// The event reported before the real allocator is called: a release of
    /// the block handed back, for `free` and `realloc` of a non-null address.
    pub open spec fn before_spec(self) -> Option<Event> {
        match self {
            Call::Free { addr } => if addr != 0 { Some(Event::Free { addr }) } else { None },
            Call::Realloc { addr, .. } => if addr != 0 { Some(Event::Free { addr }) } else { None },
            _ => None,
        }
    }

    /// The event reported after the real allocator returned `result`: a new
    /// live block, for the three calls that hand one out, when `result` is
    /// not null.
    pub open spec fn after_spec(self, result: usize) -> Option<Event> {
        if result == 0 {
            None
        } else {
            match self {
                Call::Malloc { size } => Some(Event::Alloc { addr: result, size }),
                Call::Realloc { size, .. } => Some(Event::Alloc { addr: result, size }),
                Call::Calloc { count, size } => Some(
                    Event::Alloc { addr: result, size: zeroed_size_spec(count, size) },
                ),
                Call::Free { .. } => None,
            }
        }
    }

    /// The event to report before calling the real allocator.
    pub fn event_before(&self) -> (r: Option<Event>)
        ensures
            r == self.before_spec(),
    {
        match *self {
            Call::Free { addr } => if addr != 0 { Some(Event::Free { addr }) } else { None },
            Call::Realloc { addr, .. } => if addr != 0 { Some(Event::Free { addr }) } else { None },
            _ => None,
        }
    }

    /// The event to report once the real allocator returned `result`.
    pub fn event_after(&self, result: usize) -> (r: Option<Event>)
        ensures
            r == self.after_spec(result),
    {
        if result == 0 {
            return None;
        }
        match *self {
            Call::Malloc { size } => Some(Event::Alloc { addr: result, size }),
            Call::Realloc { size, .. } => Some(Event::Alloc { addr: result, size }),
            Call::Calloc { count, size } => Some(
                Event::Alloc { addr: result, size: zeroed_size(count, size) },
            ),
            Call::Free { .. } => None,
        }
    }
}

} // verus!

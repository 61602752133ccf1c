//! The per-thread recursion guard.
//!
//! The profiler may allocate while it records an event. Such an allocation
//! comes back through an intercepted entry point on the same thread; the guard
//! makes that inner call go straight to the real allocator instead of
//! recording it, which would recurse without bound. The flag is a boolean, not
//! a depth counter: a thread that is inside an interception cannot enter again,
//! however deep the nesting.
use vstd::prelude::*;

verus! {

/// Entering the guard from the flag value `flag`: whether entry is granted,
/// and the flag afterwards.
pub open spec fn enter_spec(flag: bool) -> (bool, bool) {
    (!flag, true)
}

/// The flag after leaving the guard: cleared, whatever it was.
pub open spec fn exit_spec(flag: bool) -> bool {
    false
}

/// Tries to enter the guard of the calling thread, whose flag is `flag`.
/// Granted when the flag is clear, which then becomes set; denied, with the
/// flag left set, when the thread is already inside.
pub fn enter_critical_section(flag: &mut bool) -> (granted: bool)
    ensures
        (granted, *final(flag)) == enter_spec(*old(flag)),
{
    if *flag {
        false
    } else {
        *flag = true;
        true
    }
}

/// Leaves the guard: the flag is cleared unconditionally.
pub fn exit_critical_section(flag: &mut bool)
    ensures
        *final(flag) == exit_spec(*old(flag)),
{
    *flag = false;
}

/// On a thread outside any interception, a first `enter` is granted; a second
/// one without an `exit` between is denied and leaves the flag set; after an
/// `exit`, the next `enter` is granted again.
pub proof fn lemma_enter_twice_then_exit(flag: bool)
    requires
        !flag,
    ensures
        enter_spec(flag).0,
        !enter_spec(enter_spec(flag).1).0,
        enter_spec(enter_spec(flag).1).1 == enter_spec(flag).1,
        enter_spec(exit_spec(enter_spec(enter_spec(flag).1).1)).0,
{
}

} // verus!

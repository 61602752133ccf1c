//! One intercepted call, from entering the recursion guard to leaving it.
//!
//! An entry point runs an interception in four steps around the call of the
//! real allocator:
//! `begin` (enter the guard), report `event_before`, call the real allocator
//! with the unchanged arguments, report `event_after` with its result, and
//! `finish` (leave the guard), on every path. A denied interception reports
//! nothing and leaves the guard to the interception it is nested in.
use vstd::prelude::*;
use crate::event::{Call, Event};
use crate::guard::{enter_critical_section, enter_spec, exit_critical_section, exit_spec};

verus! {

/// An interception in progress on one thread.
#[derive(Clone, Copy, Debug)]
pub struct Interception {
    /// The call being intercepted.
    pub call: Call,
    /// Whether the guard was granted, i.e. whether this is the thread's
    /// outermost interception and is instrumented.
    pub granted: bool,
}

/// The sequence holding the value of `o`, if any.
pub open spec fn option_seq(o: Option<Event>) -> Seq<Event> {
    match o {
        Some(e) => seq![e],
        None => Seq::empty(),
    }
}

impl Interception {
    /// Beginning an interception of `call` with the thread's guard flag at
    /// `flag`: the interception, and the flag afterwards.
    pub open spec fn begin_spec(flag: bool, call: Call) -> (Interception, bool) {
        (Interception { call, granted: enter_spec(flag).0 }, enter_spec(flag).1)
    }

    /// The event reported before the real call: none when denied.
    pub open spec fn before(self) -> Option<Event> {
        if self.granted {
            self.call.before_spec()
        } else {
            None
        }
    }

    /// The event reported after the real call returned `result`: none when
    /// denied.
    pub open spec fn after(self, result: usize) -> Option<Event> {
        if self.granted {
            self.call.after_spec(result)
        } else {
            None
        }
    }

    /// Every event that this interception reports, in order, when the real
    /// call returned `result`.
    pub open spec fn events(self, result: usize) -> Seq<Event> {
        option_seq(self.before()) + option_seq(self.after(result))
    }

    /// The guard flag after finishing, from `flag`: cleared by the interception
    /// that set it, left alone by a denied one.
    pub open spec fn finish_spec(self, flag: bool) -> bool {
        if self.granted {
            exit_spec(flag)
        } else {
            flag
        }
    }

    /// Begins intercepting `call` on the thread whose guard flag is `flag`.
    pub fn begin(flag: &mut bool, call: Call) -> (r: Interception)
        ensures
            (r, *final(flag)) == Interception::begin_spec(*old(flag), call),
    {
        let granted = enter_critical_section(flag);
        Interception { call, granted }
    }

    /// The event to report before the real allocator is called.
    pub fn event_before(&self) -> (r: Option<Event>)
        ensures
            r == self.before(),
    {
        if self.granted {
            self.call.event_before()
        } else {
            None
        }
    }

    /// The event to report after the real allocator returned `result`.
    pub fn event_after(&self, result: usize) -> (r: Option<Event>)
        ensures
            r == self.after(result),
    {
        if self.granted {
            self.call.event_after(result)
        } else {
            None
        }
    }

    /// Ends the interception: leaves the guard if this interception entered it.
    pub fn finish(&self, flag: &mut bool)
        ensures
            *final(flag) == self.finish_spec(*old(flag)),
    {
        if self.granted {
            exit_critical_section(flag);
        }
    }
}

/// A call made while another interception is in progress on the same thread
/// (by the profiler, while it records an event) is forwarded without
/// instrumentation: it is denied, reports nothing, and finishing it leaves the
/// guard set for the outer interception, which clears it when it finishes.
/// Instrumentation therefore never nests deeper than one level.
pub proof fn lemma_nested_call_is_forwarded(
    flag: bool,
    outer: Call,
    inner: Call,
    inner_result: usize,
)
    requires
        !flag,
    ensures
        ({
            let (o, f1) = Interception::begin_spec(flag, outer);
            let (i, f2) = Interception::begin_spec(f1, inner);
            &&& o.granted
            &&& !i.granted
            &&& i.events(inner_result) == Seq::<Event>::empty()
            &&& i.finish_spec(f2)
            &&& !o.finish_spec(i.finish_spec(f2))
        }),
{
    let (o, f1) = Interception::begin_spec(flag, outer);
    let (i, f2) = Interception::begin_spec(f1, inner);
    assert(i.events(inner_result) =~= Seq::<Event>::empty());
}

} // verus!

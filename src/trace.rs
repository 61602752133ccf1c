//! The events that one thread reports over a sequence of calls.
//!
//! A thread's outermost interceptions each run to completion before the next
//! one begins, so its event stream is the concatenation of what each of them
//! reports, in order.
use vstd::prelude::*;
use crate::event::{Call, Event};
use crate::intercept::Interception;

verus! {

/// The events reported by an instrumented call of `call` whose real call
/// returned `result`.
pub open spec fn call_events(call: Call, result: usize) -> Seq<Event> {
    Interception { call, granted: true }.events(result)
}

/// The event stream of a thread whose outermost calls, with what the real
/// allocator returned for each, are `ops`.
pub open spec fn stream(ops: Seq<(Call, usize)>) -> Seq<Event>
    decreases ops.len(),
{
    if ops.len() == 0 {
        Seq::empty()
    } else {
        stream(ops.drop_last()) + call_events(ops.last().0, ops.last().1)
    }
}

/// The address that `call` hands back to the allocator, if it hands one back.
pub open spec fn released(call: Call) -> Option<usize> {
    match call {
        Call::Free { addr } => Some(addr),
        Call::Realloc { addr, .. } => Some(addr),
        _ => None,
    }
}

/// Every non-null address handed back in `ops` was returned by an earlier call
/// of `ops` that hands out blocks.
pub open spec fn releases_own_blocks(ops: Seq<(Call, usize)>) -> bool {
    forall|i: int|
        #![trigger ops[i]]
        0 <= i < ops.len() && released(ops[i].0) is Some && released(ops[i].0)->0 != 0
            ==> exists|j: int|
            0 <= j < i && !(ops[j].0 is Free) && ops[j].1 == released(ops[i].0)->0
}

/// `events[j]` reports the block at `addr` as live.
pub open spec fn is_alloc_of(events: Seq<Event>, j: int, addr: usize) -> bool {
    events[j] matches Event::Alloc { addr: a, .. } && a == addr
}

/// Every release in `events` is of an address reported live earlier.
pub open spec fn frees_follow_allocs(events: Seq<Event>) -> bool {
    forall|i: int|
        0 <= i < events.len() && #[trigger] events[i] is Free
            ==> exists|j: int| 0 <= j < i && is_alloc_of(events, j, events[i]->Free_addr)
}

/// The stream of a prefix of `ops` is a prefix of the stream of `ops`.
pub proof fn lemma_stream_prefix(ops: Seq<(Call, usize)>, k: int)
    requires
        0 <= k <= ops.len(),
    ensures
        stream(ops.take(k)).len() <= stream(ops).len(),
        forall|m: int|
            0 <= m < stream(ops.take(k)).len() ==> #[trigger] stream(ops.take(k))[m]
                == stream(ops)[m],
    decreases ops.len(),
{
    if k == ops.len() {
        assert(ops.take(k) =~= ops);
    } else {
        assert(ops.take(k) =~= ops.drop_last().take(k));
        lemma_stream_prefix(ops.drop_last(), k);
    }
}

/// A call that hands out blocks and returned a non-null address reports that
/// address live as the last event of the stream up to it.
proof fn lemma_handed_out_is_reported(ops: Seq<(Call, usize)>, j: int)
    requires
        0 <= j < ops.len(),
        !(ops[j].0 is Free),
        ops[j].1 != 0,
    ensures
        stream(ops.take(j + 1)).len() > 0,
        is_alloc_of(stream(ops.take(j + 1)), stream(ops.take(j + 1)).len() - 1, ops[j].1),
{
    let p = ops.take(j + 1);
    assert(p.drop_last() =~= ops.take(j));
    assert(p.last() == ops[j]);
    let ev = call_events(ops[j].0, ops[j].1);
    assert(stream(p) == stream(ops.take(j)) + ev);
    assert(ev.len() > 0);
    assert(is_alloc_of(ev, ev.len() - 1, ops[j].1));
    assert(stream(p)[stream(p).len() - 1] == ev[ev.len() - 1]);
}

/// A thread that hands back to the allocator only null or addresses that its
/// own earlier calls obtained (matched allocate/free pairs in particular)
/// reports every release only after reporting that address live.
pub proof fn lemma_frees_follow_allocs(ops: Seq<(Call, usize)>)
    requires
        releases_own_blocks(ops),
    ensures
        frees_follow_allocs(stream(ops)),
    decreases ops.len(),
{
    if ops.len() > 0 {
        let n = ops.len() - 1;
        let prev = ops.drop_last();
        assert(releases_own_blocks(prev)) by {
            assert forall|i: int|
                #![trigger prev[i]]
                0 <= i < prev.len() && released(prev[i].0) is Some && released(prev[i].0)->0
                    != 0 implies exists|j: int|
                0 <= j < i && !(prev[j].0 is Free) && prev[j].1 == released(prev[i].0)->0 by {
                assert(ops[i] == prev[i]);
                let j = choose|j: int|
                    0 <= j < i && !(ops[j].0 is Free) && ops[j].1 == released(ops[i].0)->0;
                assert(prev[j] == ops[j]);
            }
        }
        lemma_frees_follow_allocs(prev);
        let s = stream(ops);
        let sp = stream(prev);
        let last = call_events(ops[n].0, ops[n].1);
        assert(s == sp + last);
        assert forall|i: int| 0 <= i < s.len() && #[trigger] s[i] is Free implies exists|j: int|
            0 <= j < i && is_alloc_of(s, j, s[i]->Free_addr) by {
            if i < sp.len() {
                assert(s[i] == sp[i]);
                let j = choose|j: int| 0 <= j < i && is_alloc_of(sp, j, sp[i]->Free_addr);
                assert(s[j] == sp[j]);
                assert(is_alloc_of(s, j, s[i]->Free_addr));
            } else {
                // The only release that a call reports is its first event, of
                // the non-null address it hands back.
                let a = released(ops[n].0)->0;
                assert(i == sp.len());
                assert(released(ops[n].0) is Some && a != 0 && s[i]->Free_addr == a);
                assert(ops[n] == ops[n as int]);
                let j = choose|j: int| 0 <= j < n && !(ops[j].0 is Free) && ops[j].1 == a;
                lemma_handed_out_is_reported(ops, j);
                lemma_stream_prefix(prev, j + 1);
                assert(prev.take(j + 1) =~= ops.take(j + 1));
                let k = stream(ops.take(j + 1)).len() - 1;
                assert(stream(ops.take(j + 1))[k] == sp[k]);
                assert(s[k] == sp[k]);
                assert(0 <= k < i);
                assert(is_alloc_of(s, k, a));
            }
        }
    }
}

} // verus!

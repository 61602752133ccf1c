use memleak::event::{zeroed_size, Call, Event, CALLSTACK_DEPTH};
use memleak::guard::{enter_critical_section, exit_critical_section};
use memleak::intercept::Interception;

/// Runs one intercepted call against a stand-in allocator result, collecting
/// the events reported, in order.
fn run(flag: &mut bool, call: Call, result: usize, events: &mut Vec<Event>) -> usize {
    let session = Interception::begin(flag, call);
    if let Some(e) = session.event_before() {
        events.push(e);
    }
    if let Some(e) = session.event_after(result) {
        events.push(e);
    }
    session.finish(flag);
    result
}

#[test]
fn guard_enter_twice_then_exit() {
    let mut flag = false;
    assert!(enter_critical_section(&mut flag));
    assert!(!enter_critical_section(&mut flag));
    assert!(flag);
    exit_critical_section(&mut flag);
    assert!(!flag);
    assert!(enter_critical_section(&mut flag));
}

#[test]
fn exit_clears_whatever_the_flag() {
    let mut flag = false;
    exit_critical_section(&mut flag);
    assert!(!flag);
    let mut flag = true;
    exit_critical_section(&mut flag);
    assert!(!flag);
}

#[test]
fn malloc_realloc_free_sequence() {
    let mut flag = false;
    let mut events = Vec::new();
    let p1 = run(&mut flag, Call::Malloc { size: 64 }, 0x1000, &mut events);
    let p2 = run(&mut flag, Call::Realloc { addr: p1, size: 128 }, 0x2000, &mut events);
    run(&mut flag, Call::Free { addr: p2 }, 0, &mut events);
    assert_eq!(
        events,
        vec![
            Event::Alloc { addr: 0x1000, size: 64 },
            Event::Free { addr: 0x1000 },
            Event::Alloc { addr: 0x2000, size: 128 },
            Event::Free { addr: 0x2000 },
        ]
    );
    assert!(!flag);
}

#[test]
fn free_null_reports_nothing() {
    let mut flag = false;
    let mut events = Vec::new();
    let session = Interception::begin(&mut flag, Call::Free { addr: 0 });
    assert!(session.granted);
    assert_eq!(session.call, Call::Free { addr: 0 });
    assert_eq!(session.event_before(), None);
    assert_eq!(session.event_after(0), None);
    session.finish(&mut flag);
    assert!(!flag);
    run(&mut flag, Call::Free { addr: 0 }, 0, &mut events);
    assert!(events.is_empty());
}

#[test]
fn free_is_reported_before_the_call() {
    let session = Interception { call: Call::Free { addr: 0x40 }, granted: true };
    assert_eq!(session.event_before(), Some(Event::Free { addr: 0x40 }));
    assert_eq!(session.event_after(0), None);
}

#[test]
fn malloc_null_reports_nothing() {
    let mut flag = false;
    let mut events = Vec::new();
    run(&mut flag, Call::Malloc { size: 16 }, 0, &mut events);
    assert!(events.is_empty());
}

#[test]
fn realloc_null_input_reports_alloc_only() {
    let mut flag = false;
    let mut events = Vec::new();
    run(&mut flag, Call::Realloc { addr: 0, size: 32 }, 0x3000, &mut events);
    assert_eq!(events, vec![Event::Alloc { addr: 0x3000, size: 32 }]);
}

#[test]
fn failed_realloc_reports_free_only() {
    let mut flag = false;
    let mut events = Vec::new();
    run(&mut flag, Call::Realloc { addr: 0x3000, size: 1 << 40 }, 0, &mut events);
    assert_eq!(events, vec![Event::Free { addr: 0x3000 }]);
}

#[test]
fn calloc_reports_product() {
    let mut flag = false;
    let mut events = Vec::new();
    run(&mut flag, Call::Calloc { count: 3, size: 4 }, 0x5000, &mut events);
    assert_eq!(events, vec![Event::Alloc { addr: 0x5000, size: 12 }]);
    run(&mut flag, Call::Calloc { count: 3, size: 4 }, 0, &mut events);
    assert_eq!(events.len(), 1);
}

#[test]
fn calloc_overflow_reports_clamped_size() {
    assert_eq!(zeroed_size(usize::MAX, 2), usize::MAX);
    assert_eq!(zeroed_size(1 << 40, 1 << 40), usize::MAX);
    assert_eq!(zeroed_size(0, usize::MAX), 0);
    assert_eq!(zeroed_size(7, 6), 42);
    let call = Call::Calloc { count: usize::MAX, size: usize::MAX };
    assert_eq!(call.event_after(0x9000), Some(Event::Alloc { addr: 0x9000, size: usize::MAX }));
}

#[test]
fn nested_call_is_forwarded() {
    let mut flag = false;
    let outer = Interception::begin(&mut flag, Call::Malloc { size: 64 });
    assert!(outer.granted);
    // The profiler allocates while recording the outer call's event.
    let inner = Interception::begin(&mut flag, Call::Malloc { size: 8 });
    assert!(!inner.granted);
    assert_eq!(inner.event_before(), None);
    assert_eq!(inner.event_after(0x7000), None);
    let inner_free = Interception::begin(&mut flag, Call::Free { addr: 0x7000 });
    assert_eq!(inner_free.event_before(), None);
    inner_free.finish(&mut flag);
    inner.finish(&mut flag);
    assert!(flag);
    assert_eq!(outer.event_after(0x1000), Some(Event::Alloc { addr: 0x1000, size: 64 }));
    outer.finish(&mut flag);
    assert!(!flag);
}

#[test]
fn matched_pairs_free_only_reported_blocks() {
    let mut flag = false;
    let mut events = Vec::new();
    let mut next: usize = 0x10_000;
    for round in 0..4usize {
        let mut live = Vec::new();
        for k in 0..5usize {
            let p = run(&mut flag, Call::Malloc { size: 16 * (k + 1) + round }, next, &mut events);
            next += 0x100;
            live.push(p);
        }
        for p in live {
            run(&mut flag, Call::Free { addr: p }, 0, &mut events);
        }
    }
    assert_eq!(events.len(), 40);
    for (i, e) in events.iter().enumerate() {
        if let Event::Free { addr } = e {
            assert!(events[..i]
                .iter()
                .any(|x| matches!(x, Event::Alloc { addr: a, .. } if a == addr)));
        }
    }
}

#[test]
fn callstack_depth_is_five() {
    assert_eq!(CALLSTACK_DEPTH, 5);
}

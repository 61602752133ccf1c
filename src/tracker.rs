//! The handle on the profiling client.
use vstd::prelude::*;

verus! {

/// Call-stack depth captured with each text message.
pub const MESSAGE_CALLSTACK_DEPTH: u16 = 60;

#[verifier::external_type_specification]
#[verifier::external_body]
pub struct ExClient(tracy_client::Client);

/// Relies on tracy_client::Client::start: starts the profiling client, or
/// hands out a handle on the one already running.
pub assume_specification[ tracy_client::Client::start ]() -> tracy_client::Client;

/// Relies on tracy_client::Client::message: sends a text message to the
/// profiler, with a call stack of at most `callstack_depth` frames.
pub assume_specification[ tracy_client::Client::message ](
    client: &tracy_client::Client,
    message: &str,
    callstack_depth: u16,
);

/// The process-wide allocation tracker: a running profiling session.
pub struct AllocationTracker {
    client: tracy_client::Client,
}

impl AllocationTracker {
    /// Starts (or attaches to) the profiling session.
    pub fn new() -> Self {
        AllocationTracker { client: tracy_client::Client::start() }
    }

    /// Sends a free-text diagnostic message to the profiler.
    pub fn message(&self, msg: &str) {
        self.client.message(msg, MESSAGE_CALLSTACK_DEPTH);
    }
}

impl Default for AllocationTracker {
    fn default() -> Self {
        Self::new()
    }
}

} // verus!

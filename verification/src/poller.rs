//! Model of the periodic refresh trigger: its fixed cadence, the
//! cancellation flag the owner uses to stop it deterministically, and the
//! single-slot "latest wins" mailbox that connects it to the queue owner.
//!
//! The trigger's execution context — a thread and a sleep — lives outside
//! the core; what is verified here is the signalling discipline: at most
//! one refresh ever waits, so a slow status probe can never build up a
//! backlog of refreshes.

use vstd::prelude::*;

verus! {

/// Milliseconds between two refresh signals.
pub const POLL_INTERVAL_MS: u64 = 250;

/// Single-slot mailbox from the poller to the queue owner. Late signals
/// coalesce: however many times the poller fires before the owner gets to
/// drain the slot, at most one refresh waits.
#[derive(Debug, PartialEq, Eq, Structural)]
pub struct RefreshSlot {
    pending: bool,
}

impl RefreshSlot {
    /// Whether a refresh signal is waiting to be drained.
    pub closed spec fn spec_pending(&self) -> bool {
        self.pending
    }

    /// An empty slot: no refresh waiting.
    pub fn new() -> (r: Self)
        ensures
            !r.spec_pending(),
    {
        RefreshSlot { pending: false }
    }

    /// The poller fired: offer one refresh signal. Whatever waited before,
    /// exactly one signal waits after — offering is idempotent, which is
    /// the whole "latest wins" policy.
    pub fn offer(&mut self)
        ensures
            final(self).spec_pending(),
    {
        self.pending = true;
    }

    /// The owner drains the slot: reports whether a refresh was waiting and
    /// leaves the slot empty either way.
    pub fn take(&mut self) -> (was_pending: bool)
        ensures
            was_pending == old(self).spec_pending(),
            !final(self).spec_pending(),
    {
        let was: bool = self.pending;
        self.pending = false;
        was
    }
}

/// The cancellation flag of the ticker: the owner raises it once, and the
/// ticker checks it every period and stops cleanly instead of running for
/// the process's whole lifetime.
#[derive(Debug, PartialEq, Eq, Structural)]
pub struct PollerControl {
    stopped: bool,
}

impl PollerControl {
    /// Whether the owner has asked the ticker to stop.
    pub closed spec fn spec_stopped(&self) -> bool {
        self.stopped
    }

    /// A running ticker: not asked to stop yet.
    pub fn new() -> (r: Self)
        ensures
            !r.spec_stopped(),
    {
        PollerControl { stopped: false }
    }

    /// Ask the ticker to stop. Stopping is permanent.
    pub fn stop(&mut self)
        ensures
            final(self).spec_stopped(),
    {
        self.stopped = true;
    }

    /// Checked by the ticker once per period: emit another refresh only
    /// while this still holds.
    pub fn should_continue(&self) -> (r: bool)
        ensures
            r == !self.spec_stopped(),
    {
        !self.stopped
    }
}

} // verus!

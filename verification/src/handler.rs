//! The per-connection handler scaffold.
//!
//! A handler processes exactly one accepted connection: it repeatedly has the
//! framing collaborator perform one unit of protocol work — the unit
//! boundary, and the connection itself, are opaque here — while observing its
//! shutdown listener. Upon a shutdown notification it finishes the unit
//! already in flight and exits without starting a new one; upon peer
//! disconnect or an I/O error it exits regardless of shutdown state. Its
//! permit and completion-sender clone are released on every exit path, which
//! the orchestrator records as its `HandlerExit` event.

use vstd::prelude::*;

use crate::shutdown::{Shutdown, ShutdownBroadcaster};

verus! {

/// How one unit of protocol work ended, as the framing collaborator
/// reports it.
#[derive(Clone, Copy, Debug, PartialEq, Eq, Structural)]
pub enum UnitOutcome {
    /// The unit completed; the peer may submit more work.
    Completed,
    /// The peer disconnected.
    PeerDisconnected,
    /// An I/O error ended the connection.
    Failed,
}

/// Per-connection state: the shutdown listener handed over at spawn time.
pub struct Handler {
    pub shutdown: Shutdown,
}

impl Handler {
    /// A handler is created when the server spawns it after a successful
    /// accept, carrying a fresh shutdown subscription.
    pub fn new(shutdown: Shutdown) -> (h: Handler)
        ensures
            h.shutdown == shutdown,
    {
        Handler { shutdown }
    }

    /// Whether the handler may start another unit of work: only while no
    /// shutdown notice has been observed. A pure read; never suspends.
    pub fn wants_work(&self) -> (r: bool)
        ensures
            r == !self.shutdown.shutdown,
    {
        !self.shutdown.is_shutdown()
    }

    /// The shutdown notice reached this handler's listener while it was
    /// waiting between units; cache it. Later notices change nothing.
    pub fn notified(&mut self, notify: &ShutdownBroadcaster)
        requires
            old(self).shutdown.shutdown || notify.fired,
        ensures
            final(self).shutdown.shutdown,
            old(self).shutdown.shutdown ==> *final(self) == *old(self),
    {
        self.shutdown.recv(notify);
    }

    /// Decide after one unit of work, which was finished even if shutdown
    /// arrived meanwhile: the handler goes on exactly when the unit
    /// completed and no shutdown notice has been observed; a disconnect or
    /// an error ends the connection independently of shutdown state.
    pub fn continues_after(&self, outcome: UnitOutcome) -> (r: bool)
        ensures
            r == (outcome == UnitOutcome::Completed && !self.shutdown.shutdown),
    {
        matches!(outcome, UnitOutcome::Completed) && !self.shutdown.is_shutdown()
    }
}

} // verus!

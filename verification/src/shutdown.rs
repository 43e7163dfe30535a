//! Graceful-shutdown signalling: a fire-at-most-once broadcaster owned by the
//! server, and the per-handler listener that caches the notification.
//!
//! Only one value is ever sent, so a listener can never lag: once it has seen
//! the signal — delivered, or implied by the broadcaster closing — it caches
//! the fact and never touches the underlying subscription again.

use vstd::prelude::*;

verus! {

/// The server's end of the shutdown broadcast. Firing it — sending the single
/// value, or dropping the sender — notifies every current and future listener.
pub struct ShutdownBroadcaster {
    /// Whether the single shutdown notification has been issued.
    pub fired: bool,
}

/// Listens for the server shutdown signal on behalf of one connection
/// handler, and tracks that the signal has been received. Callers may query
/// whether the shutdown signal has been received.
pub struct Shutdown {
    /// Cached state: the signal has been observed. Never reverts to false.
    pub shutdown: bool,
    /// How many times the underlying subscription has been received from;
    /// bookkeeping only, with no runtime footprint.
    pub receipts: Ghost<int>,
}

impl ShutdownBroadcaster {
    pub fn new() -> (b: ShutdownBroadcaster)
        ensures
            !b.fired,
    {
        ShutdownBroadcaster { fired: false }
    }

    /// Issue the one shutdown notification. Sending to a broadcaster with no
    /// live subscriber is benign, so this never fails; firing twice is
    /// harmless since subscribers observe a single fact.
    pub fn fire(&mut self)
        ensures
            final(self).fired,
    {
        self.fired = true;
    }

    /// A fresh subscription for a handler about to be spawned. A listener
    /// subscribed after the broadcaster fired still observes the shutdown on
    /// its first `recv`.
    pub fn subscribe(&self) -> (s: Shutdown)
        ensures
            !s.shutdown,
            s.receipts@ == 0,
    {
        Shutdown::new()
    }
}

impl Shutdown {
    pub fn new() -> (s: Shutdown)
        ensures
            !s.shutdown,
            s.receipts@ == 0,
    {
        Shutdown { shutdown: false, receipts: Ghost(0) }
    }

    /// Pure read of the cached state; never suspends and never touches the
    /// underlying subscription.
    pub fn is_shutdown(&self) -> (r: bool)
        ensures
            r == self.shutdown,
    {
        self.shutdown
    }

    /// Wait for the shutdown notice. A call that is not already satisfied
    /// returns only once the broadcaster has fired, which the precondition
    /// renders here; the notice is then cached. Second and later calls return
    /// immediately, leaving the listener — its receipt count included —
    /// untouched.
    pub fn recv(&mut self, notify: &ShutdownBroadcaster)
        requires
            old(self).shutdown || notify.fired,
        ensures
            final(self).shutdown,
            old(self).shutdown ==> *final(self) == *old(self),
            !old(self).shutdown ==> final(self).receipts@ == old(self).receipts@ + 1,
    {
        if !self.shutdown {
            // Only one value is ever sent, so the underlying subscription
            // cannot report a missed message here.
            self.receipts = Ghost(self.receipts@ + 1);
            self.shutdown = true;
        }
    }
}

} // verus!

//! The completion tracker: a many-to-one channel used only for its closure.
//!
//! The server holds one sender clone and the single receiver; every handler
//! holds a clone that it drops on exit. The receiver observes closure exactly
//! when every clone — the server's own included — has been dropped, which is
//! how the orchestrator learns that all handlers have finished.

use vstd::prelude::*;

verus! {

/// Tracks the live sender clones of the completion channel.
pub struct CompletionTracker {
    /// Sender clones still live: the server's own copy while it keeps one,
    /// plus one per handler that has not exited.
    pub senders: usize,
}

impl CompletionTracker {
    /// A fresh channel: the server holds the one initial sender.
    pub fn new() -> (t: CompletionTracker)
        ensures
            t.senders == 1,
    {
        CompletionTracker { senders: 1 }
    }

    /// A clone handed to a handler being spawned. Only a live sender can be
    /// cloned.
    pub fn clone_sender(&mut self)
        requires
            1 <= old(self).senders < usize::MAX,
        ensures
            final(self).senders == old(self).senders + 1,
    {
        self.senders = self.senders + 1;
    }

    /// One clone dropped: a handler exited, or the server let go of its own
    /// copy to signal that it no longer accepts.
    pub fn drop_sender(&mut self)
        requires
            old(self).senders >= 1,
        ensures
            final(self).senders == old(self).senders - 1,
    {
        self.senders = self.senders - 1;
    }

    /// Whether the channel has closed: no sender clone is left, so the
    /// receiver's pending `recv` reports closure.
    pub fn is_closed(&self) -> (r: bool)
        ensures
            r == (self.senders == 0),
    {
        self.senders == 0
    }
}

} // verus!

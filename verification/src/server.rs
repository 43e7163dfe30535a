//! The server orchestrator: binds the accept loop, admission control,
//! backoff, and the graceful-shutdown sequence into one state machine.
//!
//! The asynchronous shell drives this machine: it performs each suspension —
//! acquiring a permit, accepting a socket, sleeping out a backoff delay,
//! awaiting the shutdown trigger or the completion channel — and reports the
//! outcome as an event. Every decision the loop takes in reaction is a
//! verified transition here. The shutdown sequence is the one the
//! completion-tracker design dictates: stop accepting, fire the broadcaster,
//! drop the server's own completion sender, then wait for the channel to
//! close, which happens exactly when the last handler has exited.

use vstd::prelude::*;

use crate::backoff::{AcceptDirective, Backoff, MAX_BACKOFF};
use crate::permits::PermitPool;
use crate::shutdown::{Shutdown, ShutdownBroadcaster};
use crate::tracker::CompletionTracker;

verus! {

/// Where the orchestrator stands in its run.
#[derive(Clone, Copy, Debug, PartialEq, Eq, Structural)]
pub enum Phase {
    /// The accept loop is waiting for a free connection permit.
    AwaitPermit,
    /// The loop holds one permit and is accepting one connection.
    AwaitAccept,
    /// Accepting has stopped: the broadcaster has fired and the server's own
    /// completion sender is dropped; live handlers are being awaited.
    Draining,
    /// Every handler has exited and the completion channel has closed.
    Done,
}

/// An occurrence the asynchronous shell reports to the orchestrator.
#[derive(Clone, Copy, Debug, PartialEq, Eq, Structural)]
pub enum Event {
    /// A blocking permit acquisition resolved.
    PermitGranted,
    /// An accept attempt returned a new connection.
    AcceptOk,
    /// An accept attempt failed.
    AcceptErr,
    /// The externally supplied cancellation future resolved.
    ShutdownTriggered,
    /// One connection handler exited, on whichever path.
    HandlerExit,
    /// The completion receiver reported the channel closed.
    CompletionClosed,
}

/// Server state. The orchestrator owns the permit pool, the shutdown
/// broadcaster, and the completion tracker; its accept loop admits one
/// connection at a time and hands each spawned handler a permit, a fresh
/// shutdown subscription, and a completion-sender clone.
pub struct Server {
    /// The address the listener is asked to bind, as "host:port".
    pub address: String,
    /// Bounded concurrency gate; capacity is fixed at construction.
    pub pool: PermitPool,
    /// Backoff ladder for the accept attempt in progress.
    pub backoff: Backoff,
    /// The shutdown broadcast sender.
    pub notify_shutdown: ShutdownBroadcaster,
    /// Live completion-sender clones: the server's own plus one per handler.
    pub completions: CompletionTracker,
    /// Handlers spawned and not yet exited.
    pub handlers: usize,
    pub phase: Phase,
    /// Whether accepting stopped on a fatal accept error rather than on the
    /// shutdown trigger.
    pub fatal: bool,
}

/// The address used when none is supplied: loopback with an ephemeral port.
pub open spec fn default_address() -> Seq<char> {
    "127.0.0.1:0"@
}

impl Server {
    /// The accept loop has not stopped.
    pub open spec fn accepting(self) -> bool {
        self.phase == Phase::AwaitPermit || self.phase == Phase::AwaitAccept
    }

    /// The permit held by the loop itself while one accept is in flight.
    pub open spec fn loop_permits(self) -> int {
        if self.phase == Phase::AwaitAccept {
            1
        } else {
            0
        }
    }

    /// Structural invariants, spanning every component the server owns:
    /// every held permit is accounted to a live handler or to the accept
    /// loop; the completion channel holds one sender per handler plus the
    /// server's own copy for as long as it accepts; a server that has
    /// stopped accepting has fired the broadcaster; a finished server has
    /// no handler left.
    pub open spec fn wf(self) -> bool {
        &&& self.pool.wf()
        &&& self.pool.capacity < usize::MAX
        &&& self.backoff.wf()
        &&& self.pool.held == self.handlers + self.loop_permits()
        &&& self.completions.senders == self.handlers + if self.accepting() {
            1int
        } else {
            0int
        }
        &&& !self.accepting() ==> self.notify_shutdown.fired
        &&& self.phase == Phase::Done ==> self.handlers == 0
    }

    /// Whether the shell may report this event in this state. Suspension is
    /// rendered as an event being disabled: a blocking acquisition resolves
    /// only while a slot is free, accept outcomes arrive only while one
    /// accept is in flight, and the completion receiver reports closure only
    /// once no sender clone is left.
    pub open spec fn enabled(self, e: Event) -> bool {
        match e {
            Event::PermitGranted => self.phase == Phase::AwaitPermit && self.pool.held
                < self.pool.capacity,
            Event::AcceptOk => self.phase == Phase::AwaitAccept,
            Event::AcceptErr => self.phase == Phase::AwaitAccept,
            Event::ShutdownTriggered => self.accepting(),
            Event::HandlerExit => self.handlers >= 1,
            Event::CompletionClosed => self.phase == Phase::Draining && self.completions.senders
                == 0,
        }
    }

    /// The state after stopping the accept loop: the loop's own permit, if
    /// one is held, returns to the pool; the broadcaster fires; the server
    /// drops its own completion sender.
    pub open spec fn stop_accepting(self, fatal: bool) -> Server {
        Server {
            pool: PermitPool {
                capacity: self.pool.capacity,
                held: (self.pool.held - self.loop_permits()) as usize,
            },
            notify_shutdown: ShutdownBroadcaster { fired: true },
            completions: CompletionTracker { senders: (self.completions.senders - 1) as usize },
            phase: Phase::Draining,
            fatal,
            ..self
        }
    }

    /// The transition the orchestrator takes on each event.
    pub open spec fn step(self, e: Event) -> Server
        recommends
            self.wf(),
            self.enabled(e),
    {
        match e {
            Event::PermitGranted => Server {
                pool: PermitPool {
                    capacity: self.pool.capacity,
                    held: (self.pool.held + 1) as usize,
                },
                backoff: Backoff::start(),
                phase: Phase::AwaitAccept,
                ..self
            },
            Event::AcceptOk => Server {
                handlers: (self.handlers + 1) as usize,
                completions: CompletionTracker {
                    senders: (self.completions.senders + 1) as usize,
                },
                phase: Phase::AwaitPermit,
                ..self
            },
            Event::AcceptErr => if self.backoff.delay < MAX_BACKOFF {
                Server { backoff: self.backoff.step_spec().0, ..self }
            } else {
                self.stop_accepting(true)
            },
            Event::ShutdownTriggered => self.stop_accepting(self.fatal),
            Event::HandlerExit => Server {
                handlers: (self.handlers - 1) as usize,
                pool: PermitPool {
                    capacity: self.pool.capacity,
                    held: (self.pool.held - 1) as usize,
                },
                completions: CompletionTracker {
                    senders: (self.completions.senders - 1) as usize,
                },
                ..self
            },
            Event::CompletionClosed => Server { phase: Phase::Done, ..self },
        }
    }

    /// A new server for the given bind address — the default, an ephemeral
    /// loopback endpoint, when none is supplied — and the given connection
    /// capacity.
    pub fn new(address: Option<String>, max_connections: usize) -> (s: Server)
        requires
            1 <= max_connections < usize::MAX,
        ensures
            s.wf(),
            s.phase == Phase::AwaitPermit,
            s.pool.capacity == max_connections,
            s.pool.held == 0,
            s.handlers == 0,
            s.completions.senders == 1,
            !s.notify_shutdown.fired,
            !s.fatal,
            s.backoff == Backoff::start(),
            match address {
                Some(a) => s.address@ == a@,
                None => s.address@ == default_address(),
            },
    {
        let addr = match address {
            Some(a) => a,
            None => "127.0.0.1:0".to_owned(),
        };
        Server {
            address: addr,
            pool: PermitPool::new(max_connections),
            backoff: Backoff::new(),
            notify_shutdown: ShutdownBroadcaster::new(),
            completions: CompletionTracker::new(),
            handlers: 0,
            phase: Phase::AwaitPermit,
            fatal: false,
        }
    }

    /// A blocking permit acquisition resolved: the loop held no permit and a
    /// slot was free, which the preconditions render. The loop now owns one
    /// permit and starts one accept attempt with a fresh backoff.
    pub fn permit_granted(&mut self)
        requires
            old(self).wf(),
            old(self).enabled(Event::PermitGranted),
        ensures
            final(self).wf(),
            *final(self) == old(self).step(Event::PermitGranted),
            final(self).phase == Phase::AwaitAccept,
            final(self).pool.held == old(self).pool.held + 1,
            final(self).backoff == Backoff::start(),
            final(self).handlers == old(self).handlers,
    {
        self.pool.acquire();
        self.backoff.reset();
        self.phase = Phase::AwaitAccept;
    }

    /// Non-blocking admission, for deployments that refuse excess
    /// connections rather than queue them: granted exactly when a slot is
    /// free, in which case the loop proceeds as after `permit_granted`;
    /// refused with the state untouched otherwise.
    pub fn try_admit(&mut self) -> (granted: bool)
        requires
            old(self).wf(),
            old(self).phase == Phase::AwaitPermit,
        ensures
            final(self).wf(),
            granted == (old(self).pool.held < old(self).pool.capacity),
            granted ==> *final(self) == old(self).step(Event::PermitGranted),
            granted ==> final(self).phase == Phase::AwaitAccept
                && final(self).pool.held == old(self).pool.held + 1,
            !granted ==> *final(self) == *old(self),
    {
        let granted = self.pool.try_acquire();
        if granted {
            self.backoff.reset();
            self.phase = Phase::AwaitAccept;
        }
        granted
    }

    /// An accept attempt returned a connection. The loop's permit, a fresh
    /// shutdown subscription — returned here for the new handler — and a
    /// clone of the completion sender move to the spawned handler; the loop
    /// goes back to waiting for a permit.
    pub fn accept_succeeded(&mut self) -> (subscription: Shutdown)
        requires
            old(self).wf(),
            old(self).enabled(Event::AcceptOk),
        ensures
            final(self).wf(),
            *final(self) == old(self).step(Event::AcceptOk),
            final(self).phase == Phase::AwaitPermit,
            final(self).handlers == old(self).handlers + 1,
            final(self).pool.held == old(self).pool.held,
            final(self).completions.senders == old(self).completions.senders + 1,
            !subscription.shutdown,
    {
        proof {
            assert(self.completions.senders < usize::MAX);
        }
        self.completions.clone_sender();
        self.handlers = self.handlers + 1;
        self.phase = Phase::AwaitPermit;
        self.notify_shutdown.subscribe()
    }

    /// An accept attempt failed. While the backoff ladder is below its
    /// ceiling the failure is transient: the loop is told how long to sleep
    /// before retrying. A failure at the ceiling — the seventh consecutive
    /// one — is fatal: the loop stops accepting, returns its permit, fires
    /// the broadcaster and drops the server's completion sender, leaving
    /// already-running handlers unaffected.
    pub fn accept_failed(&mut self) -> (dir: AcceptDirective)
        requires
            old(self).wf(),
            old(self).enabled(Event::AcceptErr),
        ensures
            final(self).wf(),
            *final(self) == old(self).step(Event::AcceptErr),
            dir == old(self).backoff.step_spec().1,
            old(self).backoff.delay < MAX_BACKOFF ==> dir == (AcceptDirective::Retry {
                delay: old(self).backoff.delay,
            }) && final(self).phase == Phase::AwaitAccept,
            old(self).backoff.delay >= MAX_BACKOFF ==> dir == AcceptDirective::Fatal
                && final(self).phase == Phase::Draining
                && final(self).fatal
                && final(self).handlers == old(self).handlers,
    {
        let dir = self.backoff.on_failure();
        match dir {
            AcceptDirective::Retry { delay: _ } => dir,
            AcceptDirective::Fatal => {
                self.pool.release();
                self.notify_shutdown.fire();
                self.completions.drop_sender();
                self.phase = Phase::Draining;
                self.fatal = true;
                dir
            },
        }
    }

    /// The externally supplied cancellation future resolved. The loop stops
    /// accepting at once: its permit, if one is held, returns to the pool;
    /// the broadcaster fires, notifying every current and future subscriber;
    /// the server drops its own completion sender so the channel can close.
    pub fn shutdown_triggered(&mut self)
        requires
            old(self).wf(),
            old(self).enabled(Event::ShutdownTriggered),
        ensures
            final(self).wf(),
            *final(self) == old(self).step(Event::ShutdownTriggered),
            final(self).phase == Phase::Draining,
            final(self).notify_shutdown.fired,
            final(self).handlers == old(self).handlers,
            final(self).completions.senders == old(self).handlers,
    {
        if matches!(self.phase, Phase::AwaitAccept) {
            self.pool.release();
        }
        self.notify_shutdown.fire();
        self.completions.drop_sender();
        self.phase = Phase::Draining;
    }

    /// One handler exited — normal return, peer disconnect, or error — and,
    /// as on every exit path, released its permit and dropped its
    /// completion-sender clone.
    pub fn handler_exited(&mut self)
        requires
            old(self).wf(),
            old(self).enabled(Event::HandlerExit),
        ensures
            final(self).wf(),
            *final(self) == old(self).step(Event::HandlerExit),
            final(self).handlers == old(self).handlers - 1,
            final(self).pool.held == old(self).pool.held - 1,
            final(self).completions.senders == old(self).completions.senders - 1,
            final(self).phase == old(self).phase,
    {
        self.handlers = self.handlers - 1;
        self.pool.release();
        self.completions.drop_sender();
    }

    /// The completion receiver reported closure: every sender clone is gone,
    /// so every handler has exited and the run is over.
    pub fn completion_closed(&mut self)
        requires
            old(self).wf(),
            old(self).enabled(Event::CompletionClosed),
        ensures
            final(self).wf(),
            *final(self) == old(self).step(Event::CompletionClosed),
            final(self).phase == Phase::Done,
            final(self).handlers == 0,
    {
        self.phase = Phase::Done;
    }

    pub fn capacity(&self) -> (r: usize)
        ensures
            r == self.pool.capacity,
    {
        self.pool.capacity
    }

    pub fn live_handlers(&self) -> (r: usize)
        ensures
            r == self.handlers,
    {
        self.handlers
    }

    pub fn is_done(&self) -> (r: bool)
        ensures
            r == (self.phase == Phase::Done),
    {
        matches!(self.phase, Phase::Done)
    }

    pub fn is_fatal(&self) -> (r: bool)
        ensures
            r == self.fatal,
    {
        self.fatal
    }
}

impl Default for Server {
    /// A server on the default address — loopback with an ephemeral port —
    /// with the default connection capacity of 1500.
    fn default() -> (s: Server)
        ensures
            s.wf(),
            s.phase == Phase::AwaitPermit,
            s.address@ == default_address(),
            s.pool.capacity == 1500,
            s.pool.held == 0,
            s.handlers == 0,
    {
        Server::new(None, 1500)
    }
}

/// Handle for a server instance as the surrounding binary configures it.
pub struct VxServer {
    /// The address to bind: a valid IP address or hostname.
    pub address: String,
    /// Whether everything, including detail not needed in production, is
    /// printed and written to the dedicated log file.
    pub verbose: Box<bool>,
}

/// Every event the shell can report preserves the orchestrator's
/// invariants: permits stay accounted, the completion-sender count stays
/// tied to the live handlers, and a stopped server stays notified.
pub proof fn lemma_step_preserves_wf(s: Server, e: Event)
    requires
        s.wf(),
        s.enabled(e),
    ensures
        s.step(e).wf(),
{
}

/// After the shutdown trigger — or a fatal accept failure — has stopped the
/// loop, no event leads back to an accepting state, and in particular none
/// makes the loop issue another accept: accepts are only in flight in
/// `AwaitAccept`, which only `PermitGranted` enters, and `PermitGranted` is
/// disabled for good.
pub proof fn lemma_no_accept_after_shutdown(s: Server, e: Event)
    requires
        s.wf(),
        !s.accepting(),
        s.enabled(e),
    ensures
        !s.step(e).accepting(),
        s.step(e).phase != Phase::AwaitAccept,
        !s.enabled(Event::PermitGranted),
        !s.enabled(Event::AcceptOk),
        !s.enabled(Event::AcceptErr),
{
}

/// The wait on the completion tracker cannot return while the server still
/// holds its own sender clone or any handler is live; when it does return,
/// the broadcaster and the server's completion sender have been dropped and
/// every handler active at shutdown time has exited.
pub proof fn lemma_completion_closure(s: Server)
    requires
        s.wf(),
    ensures
        s.accepting() ==> s.completions.senders >= 1,
        s.handlers >= 1 ==> s.completions.senders >= 1,
        s.enabled(Event::CompletionClosed) ==> s.notify_shutdown.fired && s.handlers == 0,
{
}

} // verus!

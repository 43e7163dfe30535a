use vxs::backoff::{AcceptDirective, Backoff};
use vxs::handler::{Handler, UnitOutcome};
use vxs::permits::PermitPool;
use vxs::server::{Phase, Server};
use vxs::shutdown::{Shutdown, ShutdownBroadcaster};
use vxs::tracker::CompletionTracker;

#[test]
fn backoff_schedule_is_exact() {
    // Six transient failures sleep 1, 2, 4, 8, 16, 32 while the ladder
    // climbs 1, 2, 4, 8, 16, 32, 64; the seventh consecutive failure is
    // fatal and not retried.
    let mut b = Backoff::new();
    assert_eq!(b.current_delay(), 1);
    let expected = [1u64, 2, 4, 8, 16, 32];
    for (k, want) in expected.iter().enumerate() {
        let dir = b.on_failure();
        assert_eq!(dir, AcceptDirective::Retry { delay: *want }, "failure {}", k + 1);
        assert_eq!(b.current_delay(), want * 2);
    }
    assert_eq!(b.current_delay(), 64);
    assert_eq!(b.on_failure(), AcceptDirective::Fatal);
    // Still fatal if the shell asks again.
    assert_eq!(b.on_failure(), AcceptDirective::Fatal);
    // A success resets the run.
    b.reset();
    assert_eq!(b.current_delay(), 1);
    assert_eq!(b.on_failure(), AcceptDirective::Retry { delay: 1 });
}

#[test]
fn fatal_accept_failure_stops_the_loop() {
    let mut s = Server::new(Some(String::from("127.0.0.1:0")), 4);
    s.permit_granted();
    let _handler_sub = s.accept_succeeded();
    s.permit_granted();
    for want in [1u64, 2, 4, 8, 16, 32] {
        assert_eq!(s.accept_failed(), AcceptDirective::Retry { delay: want });
    }
    assert_eq!(s.accept_failed(), AcceptDirective::Fatal);
    assert!(s.is_fatal());
    // The handler spawned before the failure is unaffected and still
    // tracked; the loop's own permit went back to the pool.
    assert_eq!(s.live_handlers(), 1);
    assert_eq!(s.pool.held, 1);
    assert_eq!(s.phase, Phase::Draining);
    // The run ends once that handler exits and the channel closes.
    s.handler_exited();
    assert_eq!(s.completions.senders, 0);
    s.completion_closed();
    assert!(s.is_done());
}

#[test]
fn capacity_two_admits_exactly_two() {
    // Three connection attempts against capacity 2: two handlers run, the
    // third is admitted only after one of the first two releases its permit.
    let mut s = Server::new(None, 2);
    assert!(s.try_admit());
    let _sub1 = s.accept_succeeded();
    assert!(s.try_admit());
    let _sub2 = s.accept_succeeded();
    assert_eq!(s.live_handlers(), 2);
    assert!(!s.try_admit());
    assert!(!s.try_admit());
    s.handler_exited();
    assert!(s.try_admit());
    let _sub3 = s.accept_succeeded();
    assert_eq!(s.live_handlers(), 2);
}

#[test]
fn immediate_shutdown_returns_promptly() {
    // Capacity 5, no active connection, shutdown at once: nothing to await,
    // the completion channel closes and the run finishes without error.
    let mut s = Server::new(None, 5);
    s.shutdown_triggered();
    assert_eq!(s.live_handlers(), 0);
    assert!(s.notify_shutdown.fired);
    assert_eq!(s.completions.senders, 0);
    s.completion_closed();
    assert!(s.is_done());
    assert!(!s.is_fatal());
}

#[test]
fn shutdown_drains_active_handlers() {
    let mut s = Server::new(None, 3);
    s.permit_granted();
    let _sub1 = s.accept_succeeded();
    s.permit_granted();
    let _sub2 = s.accept_succeeded();
    s.permit_granted();
    // Shutdown arrives while an accept is in flight: the loop's permit goes
    // back, both handlers stay tracked.
    s.shutdown_triggered();
    assert_eq!(s.phase, Phase::Draining);
    assert_eq!(s.live_handlers(), 2);
    assert_eq!(s.pool.held, 2);
    // The channel closes only when the last handler has exited.
    assert_eq!(s.completions.senders, 2);
    s.handler_exited();
    assert_eq!(s.completions.senders, 1);
    s.handler_exited();
    assert_eq!(s.completions.senders, 0);
    s.completion_closed();
    assert!(s.is_done());
}

#[test]
fn server_defaults() {
    let s = Server::default();
    assert_eq!(s.address, "127.0.0.1:0");
    assert_eq!(s.capacity(), 1500);
    assert_eq!(s.live_handlers(), 0);
    let named = Server::new(Some(String::from("0.0.0.0:6345")), 5);
    assert_eq!(named.address, "0.0.0.0:6345");
    assert_eq!(named.capacity(), 5);
}

#[test]
fn permit_pool_bounds_admission() {
    let mut p = PermitPool::new(3);
    assert_eq!(p.available(), 3);
    assert!(!p.is_exhausted());
    assert!(p.try_acquire());
    assert!(p.try_acquire());
    assert!(p.try_acquire());
    assert!(p.is_exhausted());
    assert_eq!(p.available(), 0);
    assert!(!p.try_acquire());
    p.release();
    assert!(p.try_acquire());
    assert!(!p.try_acquire());
}

#[test]
fn shutdown_listener_is_idempotent() {
    // Second and later queries after the first notification come back true
    // at once, off the cached flag.
    let mut notify = ShutdownBroadcaster::new();
    let mut listener = notify.subscribe();
    assert!(!listener.is_shutdown());
    notify.fire();
    listener.recv(&notify);
    assert!(listener.is_shutdown());
    listener.recv(&notify);
    listener.recv(&notify);
    assert!(listener.is_shutdown());
}

#[test]
fn late_subscriber_still_notified() {
    // A subscription created after the broadcaster fired resolves as
    // shutdown on its first receive.
    let mut notify = ShutdownBroadcaster::new();
    notify.fire();
    let mut listener = notify.subscribe();
    assert!(!listener.is_shutdown());
    listener.recv(&notify);
    assert!(listener.is_shutdown());
}

#[test]
fn handler_cooperates_with_shutdown() {
    let mut notify = ShutdownBroadcaster::new();
    let mut h = Handler::new(notify.subscribe());
    assert!(h.wants_work());
    assert!(h.continues_after(UnitOutcome::Completed));
    // Peer disconnects and errors end the connection regardless of shutdown.
    assert!(!h.continues_after(UnitOutcome::PeerDisconnected));
    assert!(!h.continues_after(UnitOutcome::Failed));
    notify.fire();
    h.notified(&notify);
    // The unit in flight is finished, but no new one starts.
    assert!(!h.wants_work());
    assert!(!h.continues_after(UnitOutcome::Completed));
}

#[test]
fn completion_tracker_counts_clones() {
    let mut t = CompletionTracker::new();
    assert!(!t.is_closed());
    t.clone_sender();
    t.clone_sender();
    t.drop_sender();
    t.drop_sender();
    assert!(!t.is_closed());
    t.drop_sender();
    assert!(t.is_closed());
}

#[test]
fn fresh_listener_new_is_unfired() {
    let s = Shutdown::new();
    assert!(!s.is_shutdown());
}

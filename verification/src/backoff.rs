//! Exponential backoff for consecutive accept failures.
//!
//! The accept loop retries transient failures after a pause that starts at
//! one time unit and doubles after each consecutive failure, climbing the
//! ladder 1, 2, 4, 8, 16, 32, 64. A failure that arrives once the ladder
//! stands at its ceiling of 64 — the seventh consecutive failure — exhausts
//! the retry budget and is reported as fatal instead of being retried.

use vstd::prelude::*;

verus! {

/// Ceiling of the backoff ladder: a failure that finds the current delay at
/// this value is fatal.
pub const MAX_BACKOFF: u64 = 64;

/// What the accept loop must do about one failed accept attempt.
#[derive(Clone, Copy, Debug, PartialEq, Eq, Structural)]
pub enum AcceptDirective {
    /// Transient: sleep for `delay` time units, then try accepting again.
    Retry { delay: u64 },
    /// The retry budget is exhausted; surface the error and stop accepting.
    Fatal,
}

/// Backoff state for one run of consecutive accept failures: the delay the
/// next transient failure will be charged.
pub struct Backoff {
    pub delay: u64,
}

/// The delay charged to the `k`-th consecutive failure (counting from 0):
/// 1 for the first, doubling with each one after it.
pub open spec fn retry_delay(k: nat) -> nat
    decreases k,
{
    if k == 0 {
        1
    } else {
        2 * retry_delay((k - 1) as nat)
    }
}

impl Backoff {
    /// The delay only ever takes the values 1, 2, 4, 8, 16, 32, 64.
    pub open spec fn wf(self) -> bool {
        self.delay == 1 || self.delay == 2 || self.delay == 4 || self.delay == 8
            || self.delay == 16 || self.delay == 32 || self.delay == 64
    }

    /// State before any failure has been seen.
    pub open spec fn start() -> Backoff {
        Backoff { delay: 1 }
    }

    /// One failure: retry and double while the ladder is below its ceiling;
    /// fatal once it has reached 64.
    pub open spec fn step_spec(self) -> (Backoff, AcceptDirective) {
        if self.delay >= MAX_BACKOFF {
            (self, AcceptDirective::Fatal)
        } else {
            (
                Backoff { delay: (self.delay * 2) as u64 },
                AcceptDirective::Retry { delay: self.delay },
            )
        }
    }

    /// Backoff state after `k` consecutive failures, all of them retried.
    pub open spec fn after_failures(k: nat) -> Backoff
        decreases k,
    {
        if k == 0 {
            Backoff::start()
        } else {
            Backoff::after_failures((k - 1) as nat).step_spec().0
        }
    }

    /// The directive handed to the failure that arrives after `k` earlier
    /// consecutive failures.
    pub open spec fn directive_at(k: nat) -> AcceptDirective {
        Backoff::after_failures(k).step_spec().1
    }

    pub fn new() -> (b: Backoff)
        ensures
            b == Backoff::start(),
            b.wf(),
    {
        Backoff { delay: 1 }
    }

    /// The delay the next transient failure will be charged.
    pub fn current_delay(&self) -> (d: u64)
        ensures
            d == self.delay,
    {
        self.delay
    }

    /// Forget past failures: an accepted connection ends the run.
    pub fn reset(&mut self)
        ensures
            *final(self) == Backoff::start(),
    {
        self.delay = 1;
    }

    /// Record one consecutive accept failure and say how the loop must react.
    pub fn on_failure(&mut self) -> (dir: AcceptDirective)
        requires
            old(self).wf(),
        ensures
            final(self).wf(),
            *final(self) == old(self).step_spec().0,
            dir == old(self).step_spec().1,
            old(self).delay < MAX_BACKOFF ==> dir == (AcceptDirective::Retry {
                delay: old(self).delay,
            }) && final(self).delay == 2 * old(self).delay,
            old(self).delay >= MAX_BACKOFF ==> dir == AcceptDirective::Fatal && *final(self)
                == *old(self),
    {
        if self.delay >= MAX_BACKOFF {
            AcceptDirective::Fatal
        } else {
            let d = self.delay;
            self.delay = d * 2;
            AcceptDirective::Retry { delay: d }
        }
    }
}

/// The first seven delays of the ladder, written out.
pub proof fn lemma_retry_delay_values()
    ensures
        retry_delay(0) == 1,
        retry_delay(1) == 2,
        retry_delay(2) == 4,
        retry_delay(3) == 8,
        retry_delay(4) == 16,
        retry_delay(5) == 32,
        retry_delay(6) == 64,
{
    assert(retry_delay(0) == 1);
    assert(retry_delay(1) == 2);
    assert(retry_delay(2) == 4);
    assert(retry_delay(3) == 8);
    assert(retry_delay(4) == 16);
    assert(retry_delay(5) == 32);
    assert(retry_delay(6) == 64);
}

/// After `k` retried failures the ladder stands at `retry_delay(k)`.
pub proof fn lemma_backoff_ladder(k: nat)
    requires
        k <= 6,
    ensures
        Backoff::after_failures(k).wf(),
        Backoff::after_failures(k).delay == retry_delay(k),
    decreases k,
{
    lemma_retry_delay_values();
    if k > 0 {
        lemma_backoff_ladder((k - 1) as nat);
        assert(retry_delay((k - 1) as nat) < MAX_BACKOFF);
    }
}

/// The backoff schedule in full: the first six consecutive failures are
/// retried with delays 1, 2, 4, 8, 16, 32 — the ladder climbing exactly
/// 1, 2, 4, 8, 16, 32, 64 — and the seventh consecutive failure, arriving
/// at the ceiling of 64, is fatal and not retried.
pub proof fn lemma_backoff_schedule()
    ensures
        forall|k: nat|
            k < 6 ==> #[trigger] Backoff::directive_at(k) == (AcceptDirective::Retry {
                delay: retry_delay(k) as u64,
            }),
        forall|k: nat| k <= 6 ==> #[trigger] Backoff::after_failures(k).delay == retry_delay(k),
        Backoff::after_failures(6).delay == MAX_BACKOFF,
        Backoff::directive_at(6) == AcceptDirective::Fatal,
{
    assert forall|k: nat| k < 6 implies #[trigger] Backoff::directive_at(k)
        == (AcceptDirective::Retry { delay: retry_delay(k) as u64 }) by {
        lemma_backoff_ladder(k);
        lemma_retry_delay_values();
        assert(Backoff::after_failures(k).delay < MAX_BACKOFF);
    }
    assert forall|k: nat| k <= 6 implies #[trigger] Backoff::after_failures(k).delay
        == retry_delay(k) by {
        lemma_backoff_ladder(k);
    }
    lemma_backoff_ladder(6);
    lemma_retry_delay_values();
}

} // verus!

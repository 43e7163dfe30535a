//! The permit pool: a counting gate with fixed capacity that bounds how many
//! connection handlers may run at once.
//!
//! A caller acquires a permit before handling a connection and releases it on
//! completion, on every exit path. The pool is the server's sole backpressure
//! mechanism: the number of held permits never exceeds the capacity chosen at
//! construction, which is never resized.

use vstd::prelude::*;

verus! {

/// A bounded pool of connection permits.
pub struct PermitPool {
    /// Fixed at construction; never resized.
    pub capacity: usize,
    /// Permits currently held; at most `capacity`.
    pub held: usize,
}

impl PermitPool {
    pub open spec fn wf(self) -> bool {
        &&& self.capacity >= 1
        &&& self.held <= self.capacity
    }

    /// One admission attempt: granted exactly when a slot is free.
    pub open spec fn try_acquire_spec(self) -> (PermitPool, bool) {
        if self.held < self.capacity {
            (PermitPool { capacity: self.capacity, held: (self.held + 1) as usize }, true)
        } else {
            (self, false)
        }
    }

    /// Returning one permit to the pool.
    pub open spec fn release_spec(self) -> PermitPool {
        PermitPool { capacity: self.capacity, held: (self.held - 1) as usize }
    }

    /// `n` admission attempts in a row: the pool they leave behind, and how
    /// many of them were granted.
    pub open spec fn admit_burst(self, n: nat) -> (PermitPool, nat)
        decreases n,
    {
        if n == 0 {
            (self, 0)
        } else {
            let (p, granted) = self.try_acquire_spec();
            let (q, k) = p.admit_burst((n - 1) as nat);
            (q, k + if granted { 1nat } else { 0nat })
        }
    }

    pub fn new(capacity: usize) -> (p: PermitPool)
        requires
            capacity >= 1,
        ensures
            p.wf(),
            p.capacity == capacity,
            p.held == 0,
    {
        PermitPool { capacity, held: 0 }
    }

    /// Free slots left.
    pub fn available(&self) -> (r: usize)
        requires
            self.wf(),
        ensures
            r == self.capacity - self.held,
    {
        self.capacity - self.held
    }

    /// Whether a blocking acquisition would have to suspend.
    pub fn is_exhausted(&self) -> (r: bool)
        ensures
            r == (self.held == self.capacity),
    {
        self.held == self.capacity
    }

    /// Non-blocking admission: takes a permit if a slot is free, reports
    /// "no slot" at once otherwise. The reject-on-full admission policy.
    pub fn try_acquire(&mut self) -> (granted: bool)
        requires
            old(self).wf(),
        ensures
            final(self).wf(),
            final(self).capacity == old(self).capacity,
            *final(self) == old(self).try_acquire_spec().0,
            granted == old(self).try_acquire_spec().1,
            granted == (old(self).held < old(self).capacity),
            granted ==> final(self).held == old(self).held + 1,
            !granted ==> *final(self) == *old(self),
    {
        if self.held < self.capacity {
            self.held = self.held + 1;
            true
        } else {
            false
        }
    }

    /// A blocking acquisition resuming: the caller suspended on the pool
    /// until a slot was free, which the precondition renders here. The
    /// queue-on-full admission policy.
    pub fn acquire(&mut self)
        requires
            old(self).wf(),
            old(self).held < old(self).capacity,
        ensures
            final(self).wf(),
            final(self).capacity == old(self).capacity,
            final(self).held == old(self).held + 1,
    {
        self.held = self.held + 1;
    }

    /// A permit goes back to the pool: its holder exited, on whichever path.
    pub fn release(&mut self)
        requires
            old(self).wf(),
            old(self).held >= 1,
        ensures
            final(self).wf(),
            final(self).capacity == old(self).capacity,
            final(self).held == old(self).held - 1,
            *final(self) == old(self).release_spec(),
    {
        self.held = self.held - 1;
    }
}

/// Admission is bounded by the capacity alone. From any well-formed pool,
/// a burst of `n` simultaneous attempts is granted in full whenever `n` does
/// not exceed the free slots, and otherwise exactly the free slots are
/// granted — every further attempt is refused until a permit is released.
pub proof fn lemma_burst_admission(p: PermitPool, n: nat)
    requires
        p.wf(),
    ensures
        p.held + n <= p.capacity ==> p.admit_burst(n).1 == n,
        p.admit_burst(n).1 == if p.held + n <= p.capacity {
            n
        } else {
            (p.capacity - p.held) as nat
        },
        p.admit_burst(n).0.wf(),
        p.admit_burst(n).0.capacity == p.capacity,
        p.admit_burst(n).0.held == p.held + p.admit_burst(n).1,
    decreases n,
{
    if n > 0 {
        let (q, granted) = p.try_acquire_spec();
        lemma_burst_admission(q, (n - 1) as nat);
    }
}

/// An attempt against an exhausted pool is refused, and is granted as soon
/// as one permit has been released.
pub proof fn lemma_blocked_until_release(p: PermitPool)
    requires
        p.wf(),
        p.held == p.capacity,
    ensures
        !p.try_acquire_spec().1,
        p.try_acquire_spec().0 == p,
        p.release_spec().try_acquire_spec().1,
{
}

} // verus!

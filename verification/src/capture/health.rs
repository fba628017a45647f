//! The failure latch between the capture threads and the coordinator.
//!
//! Every failure source — tap disable, stream failure, permission loss,
//! queue saturation, an event without any retained frame — reports
//! through the latch, which forwards exactly one failure into the
//! coordinator's single fail-stop path no matter how many sources race.
//! Once the latch is closed nothing more is forwarded. The locking that
//! makes `close` wait for in-flight emissions belongs to the I/O shell.

use vstd::prelude::*;

verus! {

/// The latch's state.
pub struct FailLatch {
    open: bool,
    failed: bool,
    forwarded_failures: Ghost<nat>,
}

impl FailLatch {
    /// Whether emissions still reach the coordinator.
    pub closed spec fn is_open(&self) -> bool {
        self.open
    }

    /// Whether some failure has been reported.
    pub closed spec fn failed(&self) -> bool {
        self.failed
    }

    /// How many failures have been forwarded so far.
    pub closed spec fn forwarded(&self) -> nat {
        self.forwarded_failures@
    }

    /// At most one failure is ever forwarded, and only after a report.
    pub closed spec fn wf(&self) -> bool {
        &&& self.forwarded_failures@ <= 1
        &&& self.forwarded_failures@ == 1 ==> self.failed
    }

    /// An open latch with nothing reported.
    pub fn new() -> (r: Self)
        ensures
            r.wf(),
            r.is_open(),
            !r.failed(),
            r.forwarded() == 0,
    {
        FailLatch { open: true, failed: false, forwarded_failures: Ghost(0) }
    }

    /// Whether a packet is forwarded: only while the latch is open (a
    /// packet after close is a stale callback and is dropped).
    pub fn packet(&self) -> (forward: bool)
        ensures
            forward == self.is_open(),
    {
        self.open
    }

    /// Reports a failure; returns whether this report is the one that is
    /// forwarded: the first report, and only while the latch is open.
    pub fn fail(&mut self) -> (forward: bool)
        requires
            old(self).wf(),
        ensures
            final(self).wf(),
            final(self).failed(),
            final(self).is_open() == old(self).is_open(),
            forward == (!old(self).failed() && old(self).is_open()),
            final(self).forwarded() == old(self).forwarded() + (if forward {
                1nat
            } else {
                0nat
            }),
    {
        if self.failed {
            return false;
        }
        self.failed = true;
        if self.open {
            self.forwarded_failures = Ghost(self.forwarded_failures@ + 1);
            true
        } else {
            false
        }
    }

    pub fn has_failed(&self) -> (r: bool)
        ensures
            r == self.failed(),
    {
        self.failed
    }

    /// Closes the latch: later packets and failures are not forwarded.
    pub fn close(&mut self)
        requires
            old(self).wf(),
        ensures
            final(self).wf(),
            !final(self).is_open(),
            final(self).failed() == old(self).failed(),
            final(self).forwarded() == old(self).forwarded(),
    {
        self.open = false;
    }
}

/// However many failure sources race, the latch forwards at most one
/// failure, and a forwarded failure has been reported.
pub proof fn lemma_at_most_one_failure_forwarded(latch: FailLatch)
    requires
        latch.wf(),
    ensures
        latch.forwarded() <= 1,
        latch.forwarded() == 1 ==> latch.failed(),
{
}

} // verus!

//! The bounded capture queue between the event-tap callback and the
//! single ordered capture worker: its sizing, its FIFO with the
//! saturation and close rules, and its depth accounting.
//!
//! The tap side never blocks: a full queue is an explicit saturation
//! signal that fail-stops the recording, and no accepted job is dropped
//! or reordered. Capacity derives from a
//! retained-frame byte budget: each queued job pins at most one frame set
//! (one frame per display).

use std::collections::VecDeque;

use vstd::prelude::*;

use crate::domain::schema::{KeyInfo, MouseButton};

verus! {

/// The retained-frame byte budget the queue capacity is chosen from.
pub const RETAINED_FRAME_BYTE_BUDGET: u64 = 805306368;

/// Capacity clamp: enough headroom for bursts, bounded memory.
pub const MIN_QUEUE_CAPACITY: usize = 4;

pub const MAX_QUEUE_CAPACITY: usize = 64;

/// The raw input facts one tap callback copies out of the event.
#[derive(Debug, Clone, PartialEq, Eq)]
pub enum RawInput {
    Click { button: MouseButton },
    KeyDown { key: KeyInfo },
}

/// `v` clamped into `[lo, hi]`.
pub open spec fn clamp(v: int, lo: int, hi: int) -> int {
    if v < lo { lo } else if v > hi { hi } else { v }
}

/// How many frame sets fit in the budget (a zero frame set counts as one
/// byte), as a `usize`, clamped into the capacity bounds.
pub open spec fn capacity_for(budget_bytes: u64, frame_set_bytes: u64) -> int {
    let per_set: int = if frame_set_bytes == 0 { 1 } else { frame_set_bytes as int };
    let fitting = ((budget_bytes as int) / per_set) as usize;
    clamp(fitting as int, MIN_QUEUE_CAPACITY as int, MAX_QUEUE_CAPACITY as int)
}

/// Queue capacity from the byte budget: how many frame sets of the
/// current display configuration fit in the budget, clamped into
/// `[MIN_QUEUE_CAPACITY, MAX_QUEUE_CAPACITY]`.
pub fn queue_capacity(budget_bytes: u64, frame_set_bytes: u64) -> (r: usize)
    ensures
        r as int == capacity_for(budget_bytes, frame_set_bytes),
        MIN_QUEUE_CAPACITY <= r <= MAX_QUEUE_CAPACITY,
{
    let per_set: u64 = if frame_set_bytes == 0 { 1 } else { frame_set_bytes };
    let fitting = (budget_bytes / per_set) as usize;
    if fitting < MIN_QUEUE_CAPACITY {
        MIN_QUEUE_CAPACITY
    } else if fitting > MAX_QUEUE_CAPACITY {
        MAX_QUEUE_CAPACITY
    } else {
        fitting
    }
}

/// Queue-depth accounting; the maximum observed depth is reported when
/// the pipeline stops. The counters wrap like the atomics they model.
#[derive(Debug, Default)]
pub struct QueueDepth {
    current: usize,
    max: usize,
}

impl QueueDepth {
    /// The number of jobs currently accounted as queued.
    pub closed spec fn depth(&self) -> usize {
        self.current
    }

    /// The maximum depth observed so far.
    pub closed spec fn maximum(&self) -> usize {
        self.max
    }

    pub fn new() -> (r: Self)
        ensures
            r.depth() == 0,
            r.maximum() == 0,
    {
        QueueDepth { current: 0, max: 0 }
    }

    /// Accounts one job about to be published; the maximum takes the new
    /// depth into account.
    pub fn on_enqueue(&mut self)
        ensures
            final(self).depth() == old(self).depth().wrapping_add(1),
            final(self).maximum() == (if final(self).depth() > old(self).maximum() {
                final(self).depth()
            } else {
                old(self).maximum()
            }),
    {
        self.current = self.current.wrapping_add(1);
        if self.current > self.max {
            self.max = self.current;
        }
    }

    /// Reverses `on_enqueue` for a job the channel rejected.
    pub fn on_rejected(&mut self)
        ensures
            final(self).depth() == old(self).depth().wrapping_sub(1),
            final(self).maximum() == old(self).maximum(),
    {
        self.current = self.current.wrapping_sub(1);
    }

    /// Accounts one job taken by the worker.
    pub fn on_dequeue(&mut self)
        ensures
            final(self).depth() == old(self).depth().wrapping_sub(1),
            final(self).maximum() == old(self).maximum(),
    {
        self.current = self.current.wrapping_sub(1);
    }

    pub fn max_observed(&self) -> (r: usize)
        ensures
            r == self.maximum(),
    {
        self.max
    }
}

/// Enqueue failure: saturation is the capture-overload signal; a closed
/// queue means the worker is gone (stop already in progress).
#[derive(Debug, Clone, Copy, PartialEq, Eq, Structural)]
pub enum EnqueueError {
    Saturated,
    Closed,
}

/// The bounded FIFO between the tap and the worker. The tap side never
/// blocks: a job is accepted while fewer than `capacity` jobs wait, and
/// otherwise rejected as saturated; no job is dropped or coalesced once
/// accepted, and the worker receives them in acceptance order. The I/O
/// shell shares it between the two threads behind a lock.
#[derive(Debug)]
pub struct CaptureQueue<T> {
    jobs: VecDeque<T>,
    capacity: usize,
    receiver_open: bool,
    senders_open: bool,
    depth: QueueDepth,
}

impl<T> CaptureQueue<T> {
    /// The accepted jobs not yet received, oldest first.
    pub closed spec fn pending(&self) -> Seq<T> {
        self.jobs@
    }

    pub closed spec fn capacity_spec(&self) -> usize {
        self.capacity
    }

    /// Whether the worker side still receives.
    pub closed spec fn receiving(&self) -> bool {
        self.receiver_open
    }

    /// Whether the tap side may still send.
    pub closed spec fn sending(&self) -> bool {
        self.senders_open
    }

    /// The maximum depth observed so far.
    pub closed spec fn max_depth(&self) -> usize {
        self.depth.maximum()
    }

    /// The queue's invariant: never more jobs than its capacity, and the
    /// depth counter equals the number of waiting jobs.
    pub closed spec fn wf(&self) -> bool {
        &&& self.jobs@.len() <= self.capacity
        &&& self.depth.depth() == self.jobs@.len()
    }

    /// An empty, open queue holding at most `capacity` jobs.
    pub fn new(capacity: usize) -> (r: Self)
        ensures
            r.wf(),
            r.pending() == Seq::<T>::empty(),
            r.capacity_spec() == capacity,
            r.receiving(),
            r.sending(),
            r.max_depth() == 0,
    {
        CaptureQueue {
            jobs: VecDeque::new(),
            capacity,
            receiver_open: true,
            senders_open: true,
            depth: QueueDepth::new(),
        }
    }

    /// Nonblocking enqueue. The depth is accounted before the job is
    /// published and rolled back when it is rejected, so the observed
    /// maximum may include one rejected job at the saturation boundary.
    pub fn enqueue(&mut self, job: T) -> (r: Result<(), EnqueueError>)
        requires
            old(self).wf(),
        ensures
            final(self).wf(),
            final(self).capacity_spec() == old(self).capacity_spec(),
            final(self).receiving() == old(self).receiving(),
            final(self).sending() == old(self).sending(),
            final(self).max_depth() == (if (old(self).pending().len() as usize).wrapping_add(1)
                > old(self).max_depth() {
                (old(self).pending().len() as usize).wrapping_add(1)
            } else {
                old(self).max_depth()
            }),
            !old(self).receiving() ==> r == Err::<(), EnqueueError>(EnqueueError::Closed)
                && final(self).pending() == old(self).pending(),
            old(self).receiving() && old(self).pending().len() >= old(self).capacity_spec() ==> r
                == Err::<(), EnqueueError>(EnqueueError::Saturated) && final(self).pending()
                == old(self).pending(),
            old(self).receiving() && old(self).pending().len() < old(self).capacity_spec() ==> r
                == Ok::<(), EnqueueError>(()) && final(self).pending() == old(self).pending().push(
                job,
            ),
    {
        self.depth.on_enqueue();
        if !self.receiver_open {
            self.depth.on_rejected();
            Err(EnqueueError::Closed)
        } else if self.jobs.len() >= self.capacity {
            self.depth.on_rejected();
            Err(EnqueueError::Saturated)
        } else {
            self.jobs.push_back(job);
            Ok(())
        }
    }

    /// Takes the oldest waiting job, if any. With no job waiting the
    /// worker blocks until one arrives, or stops once every sender has
    /// closed (see `is_drained`).
    pub fn recv(&mut self) -> (r: Option<T>)
        requires
            old(self).wf(),
        ensures
            final(self).wf(),
            final(self).capacity_spec() == old(self).capacity_spec(),
            final(self).receiving() == old(self).receiving(),
            final(self).sending() == old(self).sending(),
            final(self).max_depth() == old(self).max_depth(),
            old(self).pending().len() == 0 ==> r is None && final(self).pending() == old(
                self,
            ).pending(),
            old(self).pending().len() > 0 ==> r == Some(old(self).pending()[0])
                && final(self).pending() == old(self).pending().drop_first(),
    {
        match self.jobs.pop_front() {
            Some(job) => {
                self.depth.on_dequeue();
                Some(job)
            },
            None => None,
        }
    }

    /// Every sender is gone: no further job can arrive.
    pub fn close_senders(&mut self)
        requires
            old(self).wf(),
        ensures
            final(self).wf(),
            final(self).pending() == old(self).pending(),
            final(self).capacity_spec() == old(self).capacity_spec(),
            final(self).receiving() == old(self).receiving(),
            !final(self).sending(),
            final(self).max_depth() == old(self).max_depth(),
    {
        self.senders_open = false;
    }

    /// The worker is gone: later enqueues report `Closed`.
    pub fn close_receiver(&mut self)
        requires
            old(self).wf(),
        ensures
            final(self).wf(),
            final(self).pending() == old(self).pending(),
            final(self).capacity_spec() == old(self).capacity_spec(),
            !final(self).receiving(),
            final(self).sending() == old(self).sending(),
            final(self).max_depth() == old(self).max_depth(),
    {
        self.receiver_open = false;
    }

    /// The worker's stop condition: every sender closed and every
    /// accepted job received.
    pub fn is_drained(&self) -> (r: bool)
        ensures
            r == (!self.sending() && self.pending().len() == 0),
    {
        !self.senders_open && self.jobs.len() == 0
    }

    /// The number of jobs waiting.
    pub fn len(&self) -> (r: usize)
        requires
            self.wf(),
        ensures
            r == self.pending().len(),
    {
        self.jobs.len()
    }

    /// The maximum depth observed so far.
    pub fn max_observed(&self) -> (r: usize)
        ensures
            r == self.max_depth(),
    {
        self.depth.max_observed()
    }
}

} // verus!

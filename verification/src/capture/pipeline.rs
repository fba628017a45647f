//! The decisions of the macOS capture pipeline around its threads.
//!
//! The pipeline starts the streams, waits for every display to deliver a
//! first frame, sizes the queue, starts the worker, and enables the event
//! tap last, so no event can precede a pre-event frame; a health thread
//! polls the tap while recording. Those threads and calls belong to the
//! I/O shell. Decided here: when warm-up is done or has failed, how many
//! bytes one retained frame set takes, what a rejected enqueue reports,
//! and what one health poll does.

use vstd::prelude::*;

use crate::capture::queue::EnqueueError;

verus! {

/// The overload failure: the queue is full, so the recording stops to
/// keep the per-event screenshot guarantee.
pub open spec fn overload_message() -> Seq<char> {
    "capture overloaded: the screenshot queue is full (recording stopped to preserve the per-event screenshot guarantee)"@
}

/// What a rejected enqueue reports: saturation fail-stops the recording;
/// a closed queue (stop already in progress) is dropped silently.
pub fn enqueue_failure(error: EnqueueError) -> (r: Option<String>)
    ensures
        match error {
            EnqueueError::Saturated => r matches Some(m) && m@ == overload_message(),
            EnqueueError::Closed => r is None,
        },
{
    match error {
        EnqueueError::Saturated => Some(
            String::from_str(
                "capture overloaded: the screenshot queue is full (recording stopped to preserve the per-event screenshot guarantee)",
            ),
        ),
        EnqueueError::Closed => None,
    }
}

/// The bytes of the BGRA frames of a display set, one frame per display
/// of the given pixel size.
pub open spec fn frames_bytes(dims: Seq<(u32, u32)>) -> int
    decreases dims.len(),
{
    if dims.len() == 0 {
        0
    } else {
        frames_bytes(dims.drop_last()) + dims.last().0 * dims.last().1 * 4
    }
}

proof fn lemma_frames_bytes_monotone(dims: Seq<(u32, u32)>, i: int)
    requires
        0 <= i <= dims.len(),
    ensures
        0 <= frames_bytes(dims.take(i)) <= frames_bytes(dims),
    decreases dims.len() - i,
{
    if i < dims.len() {
        lemma_frames_bytes_monotone(dims, i + 1);
        assert(dims.take(i + 1).drop_last() =~= dims.take(i));
        let last = dims[i];
        assert(0 <= last.0 * last.1 * 4) by (nonlinear_arith);
    } else {
        assert(dims.take(i) =~= dims);
    }
    lemma_frames_bytes_nonnegative(dims.take(i));
}

proof fn lemma_frames_bytes_nonnegative(dims: Seq<(u32, u32)>)
    ensures
        0 <= frames_bytes(dims),
    decreases dims.len(),
{
    if dims.len() > 0 {
        lemma_frames_bytes_nonnegative(dims.drop_last());
        let last = dims.last();
        assert(0 <= last.0 * last.1 * 4) by (nonlinear_arith);
    }
}

/// Whether the frame bytes of a display set fit in 64 bits (the size the
/// queue budget is computed in).
pub fn frames_bytes_fit(dims: &Vec<(u32, u32)>) -> (r: bool)
    ensures
        r == (frames_bytes(dims@) <= u64::MAX),
{
    let mut total: u128 = 0;
    let mut i: usize = 0;
    while i < dims.len()
        invariant
            0 <= i <= dims@.len(),
            total == frames_bytes(dims@.take(i as int)),
            total <= u64::MAX,
        decreases dims@.len() - i,
    {
        let (w, h) = dims[i];
        proof {
            assert(dims@.take(i + 1).drop_last() =~= dims@.take(i as int));
            assert((w as int) * (h as int) * 4 <= 0xffff_ffffint * 0xffff_ffffint * 4) by (nonlinear_arith)
                requires
                    w <= 0xffff_ffff,
                    h <= 0xffff_ffff,
            ;
            assert(0 <= (w as int) * (h as int) * 4) by (nonlinear_arith);
        }
        total = total + (w as u128) * (h as u128) * 4;
        if total > u64::MAX as u128 {
            proof {
                lemma_frames_bytes_monotone(dims@, i + 1);
            }
            return false;
        }
        i = i + 1;
    }
    assert(dims@.take(dims@.len() as int) =~= dims@);
    true
}

/// The size of one retained frame set, at least one byte (the queue
/// capacity divides the byte budget by it).
pub fn frame_set_bytes(dims: &Vec<(u32, u32)>) -> (r: u64)
    requires
        frames_bytes(dims@) <= u64::MAX,
    ensures
        r == (if frames_bytes(dims@) == 0 { 1 } else { frames_bytes(dims@) }),
{
    let mut total: u64 = 0;
    let mut i: usize = 0;
    while i < dims.len()
        invariant
            0 <= i <= dims@.len(),
            frames_bytes(dims@) <= u64::MAX,
            total == frames_bytes(dims@.take(i as int)),
        decreases dims@.len() - i,
    {
        let (w, h) = dims[i];
        proof {
            assert(dims@.take(i + 1).drop_last() =~= dims@.take(i as int));
            lemma_frames_bytes_monotone(dims@, i + 1);
            assert(0 <= (w as int) * (h as int) * 4) by (nonlinear_arith);
        }
        let frame = (w as u64) * (h as u64) * 4;
        total = total + frame;
        i = i + 1;
    }
    assert(dims@.take(dims@.len() as int) =~= dims@);
    if total == 0 {
        1
    } else {
        total
    }
}

/// One step of the warm-up wait.
#[derive(Debug, Clone, Copy, PartialEq, Eq, Structural)]
pub enum WarmUp {
    /// Every display retains a first frame: enable the tap.
    Ready,
    /// The deadline passed first: the start fails.
    TimedOut,
    /// Sleep briefly and look again.
    Poll,
}

/// Warm-up is done once the broker is warm; it fails once the deadline
/// is reached without that.
pub fn warm_up_step(is_warm: bool, now_ms: u64, deadline_ms: u64) -> (r: WarmUp)
    ensures
        r == (if is_warm {
            WarmUp::Ready
        } else if now_ms >= deadline_ms {
            WarmUp::TimedOut
        } else {
            WarmUp::Poll
        }),
{
    if is_warm {
        WarmUp::Ready
    } else if now_ms >= deadline_ms {
        WarmUp::TimedOut
    } else {
        WarmUp::Poll
    }
}

/// The start failure of a warm-up that timed out.
pub fn warm_up_failure() -> (r: String)
    ensures
        r@ == "screen capture did not deliver a first frame for every display in time"@,
{
    String::from_str("screen capture did not deliver a first frame for every display in time")
}

/// One poll of the tap-health thread.
#[derive(Debug, Clone, Copy, PartialEq, Eq, Structural)]
pub enum HealthAction {
    /// Stop polling: the pipeline is stopping or already failed.
    Exit,
    /// The tap is disabled: report the failure, then stop polling.
    FailStop,
    /// Sleep one interval and poll again.
    Sleep,
}

/// The health rule: no silent re-enable — a disabled tap fail-stops.
pub fn health_step(stopping: bool, failed: bool, tap_enabled: bool) -> (r: HealthAction)
    ensures
        r == (if stopping || failed {
            HealthAction::Exit
        } else if !tap_enabled {
            HealthAction::FailStop
        } else {
            HealthAction::Sleep
        }),
{
    if stopping || failed {
        HealthAction::Exit
    } else if !tap_enabled {
        HealthAction::FailStop
    } else {
        HealthAction::Sleep
    }
}

/// The failure a disabled tap reports from the health thread.
pub fn tap_health_failure() -> (r: String)
    ensures
        r@ == "event tap disabled mid-recording (Input Monitoring health check)"@,
{
    String::from_str("event tap disabled mid-recording (Input Monitoring health check)")
}

} // verus!

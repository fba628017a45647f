//! The decisions of the single ordered capture worker.
//!
//! The worker thread drains the queue in FIFO order, resolves metadata,
//! assembles each packet and emits it through the guard; that loop, the
//! clock and the sleeping belong to the I/O shell. What is decided here:
//! which frame a job is cut from, and the bounded post-event wait of a
//! key-down — its settle point and deadline, and at each step whether to
//! take the newest frame in the window, give up, or how long to wait
//! before looking again. No frame is chosen before the settle point, so
//! the typed character is normally visible.
//!
//! The deadline is anchored to the event timestamp, so a burst of
//! key-downs on a static screen shares one wait instead of stacking, and
//! a job that reaches the worker after its deadline queries once and
//! never waits.

use vstd::prelude::*;

verus! {

/// `a + b`, saturating at `u64::MAX`.
pub open spec fn saturating_sum(a: u64, b: u64) -> u64 {
    if a + b > u64::MAX { u64::MAX } else { (a + b) as u64 }
}

/// The deadline of a key-down's post-event wait: `event_ts + window`,
/// saturating.
pub fn post_event_deadline(event_ts_ns: u64, window_ns: u64) -> (r: u64)
    ensures
        r == saturating_sum(event_ts_ns, window_ns),
{
    event_ts_ns.saturating_add(window_ns)
}

/// What follows an empty broker query at `now_ns`: `None` once the
/// deadline has been reached (use the pinned frame), else the wait
/// before the next query, `min(poll, deadline - now)`.
pub open spec fn wait_after(now_ns: u64, deadline_ns: u64, poll_ns: u64) -> Option<u64> {
    if now_ns >= deadline_ns {
        None
    } else if poll_ns <= deadline_ns - now_ns {
        Some(poll_ns)
    } else {
        Some((deadline_ns - now_ns) as u64)
    }
}

/// The step of the post-event wait after an empty broker query.
pub fn wait_after_miss(now_ns: u64, deadline_ns: u64, poll_ns: u64) -> (r: Option<u64>)
    ensures
        r == wait_after(now_ns, deadline_ns, poll_ns),
        r matches Some(d) ==> d <= poll_ns && now_ns + d <= deadline_ns,
{
    if now_ns >= deadline_ns {
        None
    } else {
        let remaining = deadline_ns - now_ns;
        if poll_ns <= remaining {
            Some(poll_ns)
        } else {
            Some(remaining)
        }
    }
}

/// The sum of a list of waits.
pub open spec fn total(waits: Seq<u64>) -> int
    decreases waits.len(),
{
    if waits.len() == 0 {
        0
    } else {
        waits[0] + total(waits.drop_first())
    }
}

/// The point after which a key-down's post-event frame may be chosen:
/// `event_ts + settle`, saturating, and never after the deadline.
pub open spec fn settle_point(event_ts_ns: u64, settle_ns: u64, deadline_ns: u64) -> u64 {
    let s = saturating_sum(event_ts_ns, settle_ns);
    if s < deadline_ns { s } else { deadline_ns }
}

/// The settle point of a key-down's post-event wait.
pub fn post_event_settle_point(event_ts_ns: u64, settle_ns: u64, deadline_ns: u64) -> (r: u64)
    ensures
        r == settle_point(event_ts_ns, settle_ns, deadline_ns),
        r <= deadline_ns,
{
    let s = event_ts_ns.saturating_add(settle_ns);
    if s < deadline_ns { s } else { deadline_ns }
}

/// One step of a key-down's post-event wait.
#[derive(Debug, Clone, Copy, PartialEq, Eq, Structural)]
pub enum KeyDownStep {
    /// Take the frame the settled query found.
    Take,
    /// Wait this many nanoseconds, then look again.
    Wait(u64),
    /// The deadline has passed with no frame: use the pinned frame.
    UsePinned,
}

/// Whether the settled query counts at `now_ns`: only from the settle
/// point on.
pub open spec fn settled(now_ns: u64, settle_at_ns: u64) -> bool {
    now_ns >= settle_at_ns
}

/// The key-down rule at `now_ns`, given whether the settled query (newest
/// frame in the window) found one: before the settle point wait for it,
/// in polls; after it take a found frame; with none, wait in polls until
/// the deadline and then use the pinned frame.
pub open spec fn key_down_step_spec(
    now_ns: u64,
    settle_at_ns: u64,
    deadline_ns: u64,
    poll_ns: u64,
    found: bool,
) -> KeyDownStep {
    if !settled(now_ns, settle_at_ns) {
        if poll_ns <= settle_at_ns - now_ns {
            KeyDownStep::Wait(poll_ns)
        } else {
            KeyDownStep::Wait((settle_at_ns - now_ns) as u64)
        }
    } else if found {
        KeyDownStep::Take
    } else {
        match wait_after(now_ns, deadline_ns, poll_ns) {
            None => KeyDownStep::UsePinned,
            Some(d) => KeyDownStep::Wait(d),
        }
    }
}

/// The next step of a key-down's post-event wait. `found` is read only
/// once the settle point is reached.
pub fn key_down_step(now_ns: u64, settle_at_ns: u64, deadline_ns: u64, poll_ns: u64, found: bool) -> (r:
    KeyDownStep)
    requires
        settle_at_ns <= deadline_ns,
    ensures
        r == key_down_step_spec(now_ns, settle_at_ns, deadline_ns, poll_ns, found),
        r is Take ==> found && now_ns >= settle_at_ns,
        r matches KeyDownStep::Wait(d) ==> d <= poll_ns && now_ns + d <= deadline_ns,
        r is UsePinned ==> !found && now_ns >= deadline_ns,
{
    if now_ns < settle_at_ns {
        let remaining = settle_at_ns - now_ns;
        if poll_ns <= remaining {
            KeyDownStep::Wait(poll_ns)
        } else {
            KeyDownStep::Wait(remaining)
        }
    } else if found {
        KeyDownStep::Take
    } else {
        match wait_after_miss(now_ns, deadline_ns, poll_ns) {
            None => KeyDownStep::UsePinned,
            Some(d) => KeyDownStep::Wait(d),
        }
    }
}

/// The waits a key-down requests when no frame ever arrives and each wait
/// advances the clock by exactly its length.
pub open spec fn silent_key_down_waits(now_ns: u64, settle_at_ns: u64, deadline_ns: u64, poll_ns: u64) -> Seq<
    u64,
>
    decreases deadline_ns - now_ns,
{
    if settle_at_ns <= deadline_ns {
        match key_down_step_spec(now_ns, settle_at_ns, deadline_ns, poll_ns, false) {
            KeyDownStep::Wait(d) => if d == 0 {
                seq![d]
            } else {
                seq![d] + silent_key_down_waits((now_ns + d) as u64, settle_at_ns, deadline_ns, poll_ns)
            },
            _ => Seq::empty(),
        }
    } else {
        Seq::empty()
    }
}

/// A key-down that sees no frame waits in polls of at most `poll_ns`
/// through its settle and on to its deadline: the total requested wait is
/// exactly the rest of its window. A job that arrives after its deadline
/// never waits.
pub proof fn lemma_silent_key_down_fills_the_window(
    now_ns: u64,
    settle_at_ns: u64,
    deadline_ns: u64,
    poll_ns: u64,
)
    requires
        poll_ns > 0,
        settle_at_ns <= deadline_ns,
    ensures
        total(silent_key_down_waits(now_ns, settle_at_ns, deadline_ns, poll_ns)) == (if now_ns
            >= deadline_ns {
            0
        } else {
            deadline_ns - now_ns
        }),
        forall|i: int|
            0 <= i < silent_key_down_waits(now_ns, settle_at_ns, deadline_ns, poll_ns).len()
                ==> #[trigger] silent_key_down_waits(now_ns, settle_at_ns, deadline_ns, poll_ns)[i]
                <= poll_ns,
        now_ns >= deadline_ns ==> silent_key_down_waits(now_ns, settle_at_ns, deadline_ns, poll_ns).len()
            == 0,
    decreases deadline_ns - now_ns,
{
    let waits = silent_key_down_waits(now_ns, settle_at_ns, deadline_ns, poll_ns);
    if now_ns < deadline_ns {
        let d = key_down_step_spec(now_ns, settle_at_ns, deadline_ns, poll_ns, false)->Wait_0;
        let next = (now_ns + d) as u64;
        lemma_silent_key_down_fills_the_window(next, settle_at_ns, deadline_ns, poll_ns);
        let rest = silent_key_down_waits(next, settle_at_ns, deadline_ns, poll_ns);
        assert(waits == seq![d] + rest);
        assert(waits.drop_first() =~= rest);
        assert forall|i: int| 0 <= i < waits.len() implies #[trigger] waits[i] <= poll_ns by {
            if i > 0 {
                assert(waits[i] == rest[i - 1]);
            }
        }
    }
}

/// Where a job's frame comes from.
#[derive(Debug, Clone, Copy, PartialEq, Eq, Structural)]
pub enum FrameChoice {
    /// The frame pinned in the job's snapshot at enqueue time.
    Pinned,
    /// The settled post-event frame the broker delivered inside the
    /// window.
    PostEvent,
}

/// The frame rule: a click always keeps its pinned pre-event frame; a
/// key-down takes the post-event frame when one arrived inside its window
/// on the pinned display and carries the same display geometry as the
/// pinned frame, else the pinned frame.
pub open spec fn frame_choice(is_click: bool, post_found: bool, same_geometry: bool) -> FrameChoice {
    if !is_click && post_found && same_geometry {
        FrameChoice::PostEvent
    } else {
        FrameChoice::Pinned
    }
}

/// Chooses the frame a job is cut from.
pub fn choose_frame(is_click: bool, post_found: bool, same_geometry: bool) -> (r: FrameChoice)
    ensures
        r == frame_choice(is_click, post_found, same_geometry),
{
    if !is_click && post_found && same_geometry {
        FrameChoice::PostEvent
    } else {
        FrameChoice::Pinned
    }
}

} // verus!

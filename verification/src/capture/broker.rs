//! The frame-set broker: timestamped frames per display on one monotonic
//! host clock.
//!
//! Streams publish frames; the tap callback pins an immutable
//! eligible-frame snapshot for the event's timestamp before the event is
//! enqueued, so a delayed worker can never lose the required predecessor
//! frame when the live broker advances. Once a key-down's settle
//! (`POST_EVENT_SETTLE_NS`) has passed, the capture worker queries the
//! live broker for the newest frame inside the bounded window
//! `(event_ts, event_ts + POST_EVENT_FRAME_WINDOW_NS]`; the pinned
//! snapshot stays the fallback.
//!
//! Display sets are published per generation and replace each other
//! atomically. Frames retained for a display that survives a generation
//! change stay available, and pinned leases (`Arc<FrameData<D>>`) stay
//! valid forever.
//!
//! The broker is generic over the display geometry `D` it carries along:
//! the selection rules read only display ids and frame timestamps.

use std::collections::HashMap;
use std::sync::Arc;

use vstd::prelude::*;

verus! {

broadcast use vstd::std_specs::hash::group_hash_axioms;

/// The bounded post-event window for key-down frame selection: a
/// key-down step uses the newest retained frame whose timestamp lies in
/// `(event_ts, event_ts + 250 ms]`, chosen once the settle has passed,
/// else its pinned pre-event frame.
pub const POST_EVENT_FRAME_WINDOW_NS: u64 = 250_000_000;

/// The settle before a key-down's post-event frame is chosen: 100 ms
/// after the key, so the typed character is normally on screen.
pub const POST_EVENT_SETTLE_NS: u64 = 100_000_000;

/// One display of a display set: its id and its geometry.
#[derive(Debug, Clone)]
pub struct DisplayInfo<D> {
    pub id: u32,
    pub geometry: D,
}

/// One captured frame: the pixels plus the display (id and geometry)
/// they were captured under, which may be an older generation than the
/// current display set.
#[derive(Debug)]
pub struct FrameData<D> {
    pub display_id: u32,
    pub display: D,
    pub width_px: u32,
    pub height_px: u32,
    pub bytes_per_row: usize,
    /// Host-clock nanoseconds of the frame's presentation time.
    pub ts_ns: u64,
    /// Tightly packed BGRA pixels (`bytes_per_row * height_px` bytes).
    pub pixels: Vec<u8>,
}

/// The retained frames of one display: the newest frame plus its
/// predecessor, so an event whose timestamp precedes the newest frame
/// still finds its pre-event frame.
#[derive(Debug)]
pub struct RetainedFrames<D> {
    pub newest: Option<Arc<FrameData<D>>>,
    pub previous: Option<Arc<FrameData<D>>>,
}

/// A frame slot holding a frame not later than `event_ts_ns`.
pub open spec fn not_later<D>(slot: Option<Arc<FrameData<D>>>, event_ts_ns: u64) -> bool {
    slot matches Some(f) && f.ts_ns <= event_ts_ns
}

/// The pre-event selection: the newest retained frame not later than
/// the event; when every retained frame is newer (a delayed callback),
/// the oldest retained frame. Equal timestamps are eligible.
pub open spec fn eligible_frame<D>(r: RetainedFrames<D>, event_ts_ns: u64) -> Option<
    Arc<FrameData<D>>,
> {
    if not_later(r.newest, event_ts_ns) {
        r.newest
    } else if not_later(r.previous, event_ts_ns) {
        r.previous
    } else if r.previous is Some {
        r.previous
    } else {
        r.newest
    }
}

/// A frame slot holding a frame inside `(event_ts_ns, deadline_ns]`.
pub open spec fn in_window<D>(
    slot: Option<Arc<FrameData<D>>>,
    event_ts_ns: u64,
    deadline_ns: u64,
) -> bool {
    slot matches Some(f) && event_ts_ns < f.ts_ns <= deadline_ns
}

/// The post-event selection: the retained frame with the smallest
/// timestamp inside `(event_ts_ns, deadline_ns]`, the newest slot
/// winning a tie; `None` when no retained frame lies in the window.
pub open spec fn window_frame<D>(r: RetainedFrames<D>, event_ts_ns: u64, deadline_ns: u64) -> Option<
    Arc<FrameData<D>>,
> {
    let n = in_window(r.newest, event_ts_ns, deadline_ns);
    let p = in_window(r.previous, event_ts_ns, deadline_ns);
    if n && p {
        if r.previous->0.ts_ns < r.newest->0.ts_ns {
            r.previous
        } else {
            r.newest
        }
    } else if n {
        r.newest
    } else if p {
        r.previous
    } else {
        None
    }
}

/// The settled post-event selection: the retained frame with the largest
/// timestamp inside `(event_ts_ns, deadline_ns]`, the newest slot winning
/// a tie; `None` when no retained frame lies in the window.
pub open spec fn newest_window_frame<D>(
    r: RetainedFrames<D>,
    event_ts_ns: u64,
    deadline_ns: u64,
) -> Option<Arc<FrameData<D>>> {
    let n = in_window(r.newest, event_ts_ns, deadline_ns);
    let p = in_window(r.previous, event_ts_ns, deadline_ns);
    if n && p {
        if r.newest->0.ts_ns < r.previous->0.ts_ns {
            r.previous
        } else {
            r.newest
        }
    } else if n {
        r.newest
    } else if p {
        r.previous
    } else {
        None
    }
}

fn clone_slot<D>(slot: &Option<Arc<FrameData<D>>>) -> (r: Option<Arc<FrameData<D>>>)
    ensures
        r == *slot,
{
    match slot {
        Some(f) => Some(f.clone()),
        None => None,
    }
}

impl<D> RetainedFrames<D> {
    /// The pre-event frame for `event_ts_ns`.
    pub fn eligible(&self, event_ts_ns: u64) -> (r: Option<Arc<FrameData<D>>>)
        ensures
            r == eligible_frame(*self, event_ts_ns),
    {
        if let Some(newest) = &self.newest {
            if newest.ts_ns <= event_ts_ns {
                return Some(newest.clone());
            }
        }
        if let Some(previous) = &self.previous {
            if previous.ts_ns <= event_ts_ns {
                return Some(previous.clone());
            }
        }
        if self.previous.is_some() {
            clone_slot(&self.previous)
        } else {
            clone_slot(&self.newest)
        }
    }

    /// The oldest retained frame inside `(event_ts_ns, deadline_ns]`. A
    /// frame equal to the event is not eligible; one equal to the
    /// deadline is.
    pub fn oldest_in_window(&self, event_ts_ns: u64, deadline_ns: u64) -> (r: Option<
        Arc<FrameData<D>>,
    >)
        ensures
            r == window_frame(*self, event_ts_ns, deadline_ns),
    {
        let n = match &self.newest {
            Some(f) => event_ts_ns < f.ts_ns && f.ts_ns <= deadline_ns,
            None => false,
        };
        let p = match &self.previous {
            Some(f) => event_ts_ns < f.ts_ns && f.ts_ns <= deadline_ns,
            None => false,
        };
        if n && p {
            let newest_ts = match &self.newest {
                Some(f) => f.ts_ns,
                None => 0,
            };
            let previous_ts = match &self.previous {
                Some(f) => f.ts_ns,
                None => 0,
            };
            if previous_ts < newest_ts {
                clone_slot(&self.previous)
            } else {
                clone_slot(&self.newest)
            }
        } else if n {
            clone_slot(&self.newest)
        } else if p {
            clone_slot(&self.previous)
        } else {
            None
        }
    }

    /// The newest retained frame inside `(event_ts_ns, deadline_ns]`. A
    /// frame equal to the event is not eligible; one equal to the
    /// deadline is.
    pub fn newest_in_window(&self, event_ts_ns: u64, deadline_ns: u64) -> (r: Option<
        Arc<FrameData<D>>,
    >)
        ensures
            r == newest_window_frame(*self, event_ts_ns, deadline_ns),
    {
        let n = match &self.newest {
            Some(f) => event_ts_ns < f.ts_ns && f.ts_ns <= deadline_ns,
            None => false,
        };
        let p = match &self.previous {
            Some(f) => event_ts_ns < f.ts_ns && f.ts_ns <= deadline_ns,
            None => false,
        };
        if n && p {
            let newest_ts = match &self.newest {
                Some(f) => f.ts_ns,
                None => 0,
            };
            let previous_ts = match &self.previous {
                Some(f) => f.ts_ns,
                None => 0,
            };
            if newest_ts < previous_ts {
                clone_slot(&self.previous)
            } else {
                clone_slot(&self.newest)
            }
        } else if n {
            clone_slot(&self.newest)
        } else if p {
            clone_slot(&self.previous)
        } else {
            None
        }
    }
}

/// Whether some display of the set has this id.
pub open spec fn has_display<D>(displays: Seq<DisplayInfo<D>>, id: u32) -> bool {
    exists|i: int| 0 <= i < displays.len() && #[trigger] displays[i].id == id
}

/// The frames a snapshot pins: for each display of the set, its eligible
/// frame, when it retains any.
pub open spec fn pinned_frames<D>(
    displays: Seq<DisplayInfo<D>>,
    frames: Map<u32, RetainedFrames<D>>,
    event_ts_ns: u64,
) -> Map<u32, Arc<FrameData<D>>> {
    Map::new(
        |id: u32|
            has_display(displays, id) && frames.contains_key(id) && eligible_frame(
                frames[id],
                event_ts_ns,
            ) is Some,
        |id: u32| eligible_frame(frames[id], event_ts_ns)->0,
    )
}

/// An immutable snapshot pinned at event time: the display set current at
/// the event plus, per display, the eligible frame lease.
#[derive(Debug)]
pub struct FrameSnapshot<D> {
    pub event_ts_ns: u64,
    pub displays: Arc<Vec<DisplayInfo<D>>>,
    frames: HashMap<u32, Arc<FrameData<D>>>,
}

impl<D> FrameSnapshot<D> {
    /// The pinned frames, by display id.
    pub closed spec fn pinned(&self) -> Map<u32, Arc<FrameData<D>>> {
        self.frames@
    }

    /// The event timestamp the snapshot was pinned for.
    pub closed spec fn event_ts(&self) -> u64 {
        self.event_ts_ns
    }

    /// The display set current at the event.
    pub closed spec fn display_list(&self) -> Seq<DisplayInfo<D>> {
        self.displays@
    }

    /// A snapshot over explicit pinned frames (for fixtures): each frame
    /// is pinned for its own display id, the later of two frames for one
    /// display winning.
    pub fn for_test(
        event_ts_ns: u64,
        displays: Vec<DisplayInfo<D>>,
        frames: Vec<Arc<FrameData<D>>>,
    ) -> (r: Self)
        ensures
            r.event_ts() == event_ts_ns,
            r.display_list() == displays@,
            forall|id: u32|
                #[trigger] r.pinned().contains_key(id) <==> exists|i: int|
                    0 <= i < frames@.len() && frames@[i].display_id == id,
            forall|i: int|
                0 <= i < frames@.len() && (forall|k: int|
                    i < k < frames@.len() ==> frames@[k].display_id != frames@[i].display_id)
                    ==> r.pinned()[#[trigger] frames@[i].display_id] == frames@[i],
    {
        let mut map: HashMap<u32, Arc<FrameData<D>>> = HashMap::new();
        let mut i: usize = 0;
        while i < frames.len()
            invariant
                0 <= i <= frames@.len(),
                forall|id: u32|
                    #[trigger] map@.contains_key(id) <==> exists|j: int|
                        0 <= j < i && frames@[j].display_id == id,
                forall|j: int|
                    0 <= j < i && (forall|k: int|
                        j < k < i ==> frames@[k].display_id != frames@[j].display_id)
                        ==> map@[#[trigger] frames@[j].display_id] == frames@[j],
            decreases frames@.len() - i,
        {
            let frame = frames[i].clone();
            let id = frame.display_id;
            map.insert(id, frame);
            proof {
                assert forall|j: int|
                    0 <= j < i + 1 && (forall|k: int|
                        j < k < i + 1 ==> frames@[k].display_id != frames@[j].display_id)
                        implies map@[#[trigger] frames@[j].display_id] == frames@[j] by {
                    if j < i {
                        assert(frames@[i as int].display_id != frames@[j].display_id);
                    }
                }
                assert forall|k: u32| #[trigger] map@.contains_key(k) <==> exists|j: int|
                    0 <= j < i + 1 && frames@[j].display_id == k by {
                    if k == id {
                        assert(frames@[i as int].display_id == k);
                    }
                }
            }
            i = i + 1;
        }
        FrameSnapshot { event_ts_ns, displays: Arc::new(displays), frames: map }
    }

    /// The pinned frame for a display, or `None` when the display retains
    /// no frame at all (the explicit fail-stop path).
    pub fn frame_for(&self, display_id: u32) -> (r: Option<&Arc<FrameData<D>>>)
        ensures
            match r {
                Some(f) => self.pinned().contains_key(display_id) && *f == self.pinned()[display_id],
                None => !self.pinned().contains_key(display_id),
            },
    {
        self.frames.get(&display_id)
    }

    /// `frame_age_ms` for a pinned frame: the event-to-frame timestamp
    /// difference on the shared host clock in whole milliseconds, clamped
    /// at zero.
    pub fn frame_age_ms(&self, frame: &FrameData<D>) -> (r: u64)
        ensures
            r == (if self.event_ts() >= frame.ts_ns {
                (self.event_ts() - frame.ts_ns) / 1_000_000
            } else {
                0
            }),
    {
        self.event_ts_ns.saturating_sub(frame.ts_ns) / 1_000_000
    }
}

/// The live broker. Shared behind a mutex; every operation is bounded in
/// the number of displays, so the tap callback's snapshot never blocks on
/// frame-sized work.
#[derive(Debug)]
pub struct FrameBroker<D> {
    generation: u64,
    displays: Arc<Vec<DisplayInfo<D>>>,
    frames: HashMap<u32, RetainedFrames<D>>,
}

impl<D> FrameBroker<D> {
    pub closed spec fn generation_spec(&self) -> u64 {
        self.generation
    }

    pub closed spec fn display_set(&self) -> Seq<DisplayInfo<D>> {
        self.displays@
    }

    pub closed spec fn retained(&self) -> Map<u32, RetainedFrames<D>> {
        self.frames@
    }

    pub fn new() -> (r: Self)
        ensures
            r.generation_spec() == 0,
            r.display_set() == Seq::<DisplayInfo<D>>::empty(),
            r.retained() == Map::<u32, RetainedFrames<D>>::empty(),
    {
        FrameBroker { generation: 0, displays: Arc::new(Vec::new()), frames: HashMap::new() }
    }

    pub fn generation(&self) -> (r: u64)
        ensures
            r == self.generation_spec(),
    {
        self.generation
    }

    pub fn displays(&self) -> (r: Arc<Vec<DisplayInfo<D>>>)
        ensures
            r@ == self.display_set(),
    {
        self.displays.clone()
    }

    /// Publishes a new display-set generation atomically. Frames retained
    /// for displays that survive the change carry over; frames of removed
    /// displays leave the live set, while already-pinned leases stay
    /// valid.
    pub fn publish_displays(&mut self, displays: Vec<DisplayInfo<D>>) -> (r: u64)
        requires
            old(self).generation_spec() < u64::MAX,
        ensures
            r == old(self).generation_spec() + 1,
            final(self).generation_spec() == r,
            final(self).display_set() == displays@,
            final(self).retained() == old(self).retained().restrict(
                Set::new(|id: u32| has_display(displays@, id)),
            ),
    {
        let next_generation = self.generation + 1;
        let mut kept: HashMap<u32, RetainedFrames<D>> = HashMap::new();
        let ghost old_frames = self.frames@;
        let mut i: usize = 0;
        while i < displays.len()
            invariant
                0 <= i <= displays@.len(),
                forall|id: u32|
                    #[trigger] kept@.contains_key(id) <==> (old_frames.contains_key(id)
                        && exists|j: int| 0 <= j < i && displays@[j].id == id),
                forall|id: u32| #[trigger] kept@.contains_key(id) ==> kept@[id] == old_frames[id],
                forall|id: u32|
                    #[trigger] self.frames@.contains_key(id) <==> (old_frames.contains_key(id)
                        && !kept@.contains_key(id)),
                forall|id: u32| #[trigger] self.frames@.contains_key(id) ==> self.frames@[id] == old_frames[id],
            decreases displays@.len() - i,
        {
            let id = displays[i].id;
            let taken = self.frames.remove(&id);
            match taken {
                Some(retained) => {
                    kept.insert(id, retained);
                },
                None => {},
            }
            proof {
                assert forall|k: u32| #[trigger] kept@.contains_key(k) <==> (old_frames.contains_key(k)
                    && exists|j: int| 0 <= j < i + 1 && displays@[j].id == k) by {
                    if k == id {
                        assert(displays@[i as int].id == k);
                    }
                }
            }
            i = i + 1;
        }
        self.generation = next_generation;
        self.frames = kept;
        self.displays = Arc::new(displays);
        proof {
            let want = old_frames.restrict(Set::new(|id: u32| has_display(self.displays@, id)));
            assert(self.frames@ =~= want);
        }
        self.generation
    }

    /// Publishes one frame for its display: it becomes the newest, the
    /// previous newest becomes the predecessor.
    pub fn publish_frame(&mut self, frame: Arc<FrameData<D>>)
        ensures
            final(self).generation_spec() == old(self).generation_spec(),
            final(self).display_set() == old(self).display_set(),
            final(self).retained() == old(self).retained().insert(
                frame.display_id,
                RetainedFrames {
                    newest: Some(frame),
                    previous: if old(self).retained().contains_key(frame.display_id) {
                        old(self).retained()[frame.display_id].newest
                    } else {
                        None
                    },
                },
            ),
    {
        let id = frame.display_id;
        let previous = match self.frames.remove(&id) {
            Some(retained) => retained.newest,
            None => None,
        };
        self.frames.insert(id, RetainedFrames { newest: Some(frame), previous });
        proof {
            assert(self.frames@ =~= old(self).frames@.insert(
                id,
                RetainedFrames { newest: Some(frame), previous },
            ));
        }
    }

    /// True once every display of the current set retains at least one
    /// frame (the first-frame warm-up gate before the tap enables).
    pub fn is_warm(&self) -> (r: bool)
        ensures
            r == (self.display_set().len() > 0 && forall|i: int|
                0 <= i < self.display_set().len() ==> {
                    let id = #[trigger] self.display_set()[i].id;
                    self.retained().contains_key(id) && self.retained()[id].newest is Some
                }),
    {
        if self.displays.len() == 0 {
            return false;
        }
        let mut i: usize = 0;
        while i < self.displays.len()
            invariant
                0 <= i <= self.displays@.len(),
                forall|j: int|
                    0 <= j < i ==> {
                        let id = #[trigger] self.displays@[j].id;
                        self.frames@.contains_key(id) && self.frames@[id].newest is Some
                    },
            decreases self.displays@.len() - i,
        {
            let id = self.displays[i].id;
            match self.frames.get(&id) {
                Some(retained) => {
                    if retained.newest.is_none() {
                        return false;
                    }
                },
                None => {
                    return false;
                },
            }
            i = i + 1;
        }
        true
    }

    /// Pins the eligible-frame snapshot for an event timestamp.
    pub fn snapshot(&self, event_ts_ns: u64) -> (r: FrameSnapshot<D>)
        ensures
            r.event_ts() == event_ts_ns,
            r.display_list() == self.display_set(),
            r.pinned() == pinned_frames(self.display_set(), self.retained(), event_ts_ns),
    {
        let mut frames: HashMap<u32, Arc<FrameData<D>>> = HashMap::new();
        let mut i: usize = 0;
        while i < self.displays.len()
            invariant
                0 <= i <= self.displays@.len(),
                forall|id: u32|
                    #[trigger] frames@.contains_key(id) <==> (has_display(
                        self.displays@.take(i as int),
                        id,
                    ) && self.frames@.contains_key(id) && eligible_frame(
                        self.frames@[id],
                        event_ts_ns,
                    ) is Some),
                forall|id: u32|
                    #[trigger] frames@.contains_key(id) ==> frames@[id] == eligible_frame(
                        self.frames@[id],
                        event_ts_ns,
                    )->0,
            decreases self.displays@.len() - i,
        {
            let id = self.displays[i].id;
            match self.frames.get(&id) {
                Some(retained) => {
                    match retained.eligible(event_ts_ns) {
                        Some(frame) => {
                            frames.insert(id, frame);
                        },
                        None => {},
                    }
                },
                None => {},
            }
            proof {
                let before = self.displays@.take(i as int);
                let after = self.displays@.take(i + 1);
                assert forall|k: u32| has_display(after, k) <==> (has_display(before, k) || k == id) by {
                    if has_display(after, k) {
                        let j = choose|j: int| 0 <= j < after.len() && #[trigger] after[j].id == k;
                        if j < i {
                            assert(before[j].id == k);
                        }
                    }
                    if has_display(before, k) {
                        let j = choose|j: int| 0 <= j < before.len() && #[trigger] before[j].id == k;
                        assert(after[j].id == k);
                    }
                    if k == id {
                        assert(after[i as int].id == k);
                    }
                }
            }
            i = i + 1;
        }
        proof {
            assert(self.displays@.take(self.displays@.len() as int) =~= self.displays@);
            assert(frames@ =~= pinned_frames(self.displays@, self.frames@, event_ts_ns));
        }
        FrameSnapshot { event_ts_ns, displays: self.displays.clone(), frames }
    }

    /// The earliest-arrival post-event query: the oldest retained frame on
    /// `display_id` whose timestamp lies in `(event_ts_ns, deadline_ns]`,
    /// or `None` when the display retains no such frame.
    pub fn post_event_frame(&self, display_id: u32, event_ts_ns: u64, deadline_ns: u64) -> (r:
        Option<Arc<FrameData<D>>>)
        ensures
            r == (if self.retained().contains_key(display_id) {
                window_frame(self.retained()[display_id], event_ts_ns, deadline_ns)
            } else {
                None
            }),
    {
        match self.frames.get(&display_id) {
            Some(retained) => retained.oldest_in_window(event_ts_ns, deadline_ns),
            None => None,
        }
    }

    /// The key-down settled query: the newest retained frame on
    /// `display_id` whose timestamp lies in `(event_ts_ns, deadline_ns]`,
    /// or `None` when the display retains no such frame.
    pub fn settled_post_event_frame(&self, display_id: u32, event_ts_ns: u64, deadline_ns: u64) -> (r:
        Option<Arc<FrameData<D>>>)
        ensures
            r == (if self.retained().contains_key(display_id) {
                newest_window_frame(self.retained()[display_id], event_ts_ns, deadline_ns)
            } else {
                None
            }),
    {
        match self.frames.get(&display_id) {
            Some(retained) => retained.newest_in_window(event_ts_ns, deadline_ns),
            None => None,
        }
    }
}

/// The settled post-event pick lies strictly after the event and at or
/// before the deadline, no retained frame in the window is newer, and
/// some frame is picked whenever one lies in the window.
pub proof fn lemma_settled_pick_is_the_newest_in_window<D>(
    r: RetainedFrames<D>,
    event_ts_ns: u64,
    deadline_ns: u64,
)
    ensures
        newest_window_frame(r, event_ts_ns, deadline_ns) matches Some(f) ==> event_ts_ns < f.ts_ns
            <= deadline_ns,
        newest_window_frame(r, event_ts_ns, deadline_ns) matches Some(f) ==> (in_window(
            r.newest,
            event_ts_ns,
            deadline_ns,
        ) ==> r.newest->0.ts_ns <= f.ts_ns) && (in_window(r.previous, event_ts_ns, deadline_ns)
            ==> r.previous->0.ts_ns <= f.ts_ns),
        (in_window(r.newest, event_ts_ns, deadline_ns) || in_window(
            r.previous,
            event_ts_ns,
            deadline_ns,
        )) ==> newest_window_frame(r, event_ts_ns, deadline_ns) is Some,
{
}

/// The pre-event pick never lies after the event unless every retained
/// frame does; the post-event pick always lies strictly after the event
/// and at or before the deadline, and no retained frame in the window is
/// older. So one frame is never both the pre-event and the post-event
/// candidate.
pub proof fn lemma_pre_and_post_event_picks_are_separated<D>(
    r: RetainedFrames<D>,
    event_ts_ns: u64,
    deadline_ns: u64,
)
    ensures
        (not_later(r.newest, event_ts_ns) || not_later(r.previous, event_ts_ns)) ==> not_later(
            eligible_frame(r, event_ts_ns),
            event_ts_ns,
        ),
        window_frame(r, event_ts_ns, deadline_ns) matches Some(f) ==> event_ts_ns < f.ts_ns
            <= deadline_ns,
        window_frame(r, event_ts_ns, deadline_ns) matches Some(f) ==> (in_window(
            r.newest,
            event_ts_ns,
            deadline_ns,
        ) ==> f.ts_ns <= r.newest->0.ts_ns) && (in_window(r.previous, event_ts_ns, deadline_ns)
            ==> f.ts_ns <= r.previous->0.ts_ns),
        (in_window(r.newest, event_ts_ns, deadline_ns) || in_window(
            r.previous,
            event_ts_ns,
            deadline_ns,
        )) ==> window_frame(r, event_ts_ns, deadline_ns) is Some,
{
}

/// When the newest retained frame is not later than the event, the
/// pre-event pick is the newest frame; publishing a frame therefore
/// changes a later snapshot's pick only through the newest slot.
pub proof fn lemma_newest_not_later_wins<D>(r: RetainedFrames<D>, event_ts_ns: u64)
    requires
        not_later(r.newest, event_ts_ns),
    ensures
        eligible_frame(r, event_ts_ns) == r.newest,
{
}

} // verus!

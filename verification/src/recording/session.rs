//! The session worker's decisions: the single finalization owner for stop
//! and fail-stop.
//!
//! For each packet the worker drops events aimed at the recorder's own
//! window (the Stop click that ends every recording) before any disk
//! write, numbers the rest densely (`evt_0001`, `evt_0002`, ...), builds
//! the event line, and — only once the store has committed the line and
//! all three screenshots — parses the step and publishes it. At the end
//! it saves the committed steps into the manifest and emits exactly one
//! terminal envelope. The I/O shell runs the loop: it receives from the
//! packet channel, calls the store and the sink, and reports back here.

use vstd::prelude::*;

use crate::domain::parser::{opt_view, parse_step, title, default_classification};
use crate::domain::schema::{
    strings_view, CaptureMeta, Event, EventKind, Manifest, ShotPaths, Step,
};
use crate::recording::channel::LiveEnvelope;
use crate::recording::clock::{event_timestamp, representable, rfc3339_text};
use crate::recording::pipeline::{CapturePacket, PacketInput};
use crate::recording::store::{store_error_message, ShotPayloads, StoreError};
use crate::text::{lemma_padded_decimal_injective, padded_decimal, push_padded_decimal};

verus! {

/// `{prefix}{seq:04}`.
pub open spec fn numbered(prefix: Seq<char>, seq: nat) -> Seq<char> {
    prefix + padded_decimal(seq, 4)
}

/// The id of the `seq`-th persisted event: `evt_0001`, ...
pub open spec fn event_id_for(seq: nat) -> Seq<char> {
    numbered("evt_"@, seq)
}

/// The id of the step parsed from the `seq`-th persisted event.
pub open spec fn step_id_for(seq: nat) -> Seq<char> {
    numbered("step_"@, seq)
}

/// Distinct event numbers give distinct event ids and step ids, so each
/// persisted event names its own line and screenshot files.
pub proof fn lemma_numbered_ids_are_distinct(a: nat, b: nat)
    requires
        a != b,
    ensures
        event_id_for(a) != event_id_for(b),
        step_id_for(a) != step_id_for(b),
{
    let pa = padded_decimal(a, 4);
    let pb = padded_decimal(b, 4);
    if event_id_for(a) == event_id_for(b) {
        let p = "evt_"@;
        assert(event_id_for(a).subrange(p.len() as int, event_id_for(a).len() as int) =~= pa);
        assert(event_id_for(b).subrange(p.len() as int, event_id_for(b).len() as int) =~= pb);
        lemma_padded_decimal_injective(a, b, 4);
    }
    if step_id_for(a) == step_id_for(b) {
        let p = "step_"@;
        assert(step_id_for(a).subrange(p.len() as int, step_id_for(a).len() as int) =~= pa);
        assert(step_id_for(b).subrange(p.len() as int, step_id_for(b).len() as int) =~= pb);
        lemma_padded_decimal_injective(a, b, 4);
    }
}

fn numbered_id(prefix: &str, seq: u32) -> (r: String)
    ensures
        r@ == numbered(prefix@, seq as nat),
{
    let mut s = String::from_str(prefix);
    push_padded_decimal(&mut s, seq as u64, 4);
    s
}

/// What the worker does with one packet.
pub enum PacketDecision {
    /// The packet targets the recorder's own window: nothing persists.
    Drop,
    /// Persist this event line with its screenshots; `frontmost_app` is
    /// kept for the step title.
    Persist { event: Event, shots: ShotPayloads, frontmost_app: Option<String> },
}

/// The event line the worker builds for a packet.
pub open spec fn event_matches_packet(event: Event, packet: CapturePacket, seq: nat, now_ms: i64) -> bool {
    &&& event.id@ == event_id_for(seq)
    &&& event.ts@ == rfc3339_text(now_ms, true)
    &&& match packet.input {
        PacketInput::Click { button } => {
            &&& event.kind == EventKind::Click
            &&& event.button == Some(button)
            &&& event.key is None
        },
        PacketInput::KeyDown { key } => {
            &&& event.kind == EventKind::KeyDown
            &&& event.button is None
            &&& event.key == Some(key)
        },
    }
    &&& event.display_id == packet.display_id
    &&& event.pos == packet.pos
    &&& event.window == packet.window
    &&& event.element == packet.element
    &&& event.shots.canonical_for(event.id@)
    &&& event.capture == (CaptureMeta { frame_age_ms: packet.frame_age_ms })
}

/// A packet aimed at the recorder's own process.
pub open spec fn is_own(packet: CapturePacket, own_pid: i32) -> bool {
    packet.window matches Some(w) && w.pid == own_pid
}

/// Only a packet whose resolved window belongs to the recorder's own
/// process is the recorder's: a packet without a window (a click on the
/// desktop or the menu bar, a key-down with no focused window) and a
/// packet aimed at any other process are workflow content.
pub proof fn lemma_only_the_recorders_own_window_is_dropped(packet: CapturePacket, own_pid: i32)
    ensures
        packet.window is None ==> !is_own(packet, own_pid),
        (packet.window matches Some(w) && w.pid != own_pid) ==> !is_own(packet, own_pid),
        (packet.window matches Some(w) && w.pid == own_pid) ==> is_own(packet, own_pid),
{
}

/// One input of the worker loop.
pub enum WorkerInput {
    /// A packet from the pipeline, with the wall-clock reading taken when
    /// it was received.
    Packet { packet: CapturePacket, now_ms: i64 },
    /// The pipeline fail-stopped with this error.
    PipelineFailed(String),
    /// A stop was requested.
    Stop,
    /// Every sender of the channel is gone without a decision.
    Disconnected,
}

/// What the worker loop does next.
#[derive(Debug, PartialEq, Eq)]
pub enum WorkerStep {
    /// Nothing to do for this input; receive the next one.
    Continue,
    /// Persist this event line with its screenshots, then report the
    /// store's answer to `on_append`.
    Persist { event: Event, shots: ShotPayloads, frontmost_app: Option<String> },
    /// The session ends with this outcome: finalize and emit its terminal.
    Finish(Outcome),
    /// The session was abandoned mid-start: no terminal is emitted.
    Abandon,
}

/// The worker's state over one session.
pub struct SessionWorker {
    workflow_id: String,
    own_pid: i32,
    seq: u32,
    steps: Vec<Step>,
}

impl SessionWorker {
    /// The number of events persisted so far.
    pub closed spec fn persisted(&self) -> nat {
        self.seq as nat
    }

    /// The committed steps, in event order.
    pub closed spec fn committed_steps(&self) -> Seq<Step> {
        self.steps@
    }

    pub closed spec fn session_id(&self) -> Seq<char> {
        self.workflow_id@
    }

    pub closed spec fn pid(&self) -> i32 {
        self.own_pid
    }

    /// A worker for the session of `workflow_id`, in the recorder process
    /// `own_pid`.
    pub fn new(workflow_id: String, own_pid: i32) -> (r: Self)
        ensures
            r.persisted() == 0,
            r.committed_steps() == Seq::<Step>::empty(),
            r.session_id() == workflow_id@,
            r.pid() == own_pid,
    {
        SessionWorker { workflow_id, own_pid, seq: 0, steps: Vec::new() }
    }

    /// Decides one packet. A packet whose resolved window belongs to the
    /// recorder itself is dropped and consumes no event number; any other
    /// packet takes the next number and becomes an event line stamped
    /// with `now_ms`.
    pub fn accept_packet(&mut self, packet: CapturePacket, now_ms: i64) -> (r: PacketDecision)
        requires
            representable(now_ms),
            old(self).persisted() < u32::MAX,
        ensures
            final(self).committed_steps() == old(self).committed_steps(),
            final(self).session_id() == old(self).session_id(),
            final(self).pid() == old(self).pid(),
            packet.window is None ==> (r is Persist && final(self).persisted() == old(self).persisted()
                + 1),
            (packet.window matches Some(w) && w.pid != old(self).pid()) ==> (r is Persist
                && final(self).persisted() == old(self).persisted() + 1),
            (packet.window matches Some(w) && w.pid == old(self).pid()) ==> (r is Drop
                && final(self).persisted() == old(self).persisted()),
            if is_own(packet, old(self).pid()) {
                r is Drop && final(self).persisted() == old(self).persisted()
            } else {
                &&& final(self).persisted() == old(self).persisted() + 1
                &&& r matches PacketDecision::Persist { event, shots, frontmost_app }
                &&& event_matches_packet(event, packet, final(self).persisted(), now_ms)
                &&& shots == packet.shots
                &&& frontmost_app == packet.frontmost_app
            },
    {
        let own = match &packet.window {
            Some(window) => window.pid == self.own_pid,
            None => false,
        };
        if own {
            return PacketDecision::Drop;
        }
        self.seq = self.seq + 1;
        let event_id = numbered_id("evt_", self.seq);
        let CapturePacket { input, pos, display_id, window, element, frontmost_app, frame_age_ms, shots } = packet;
        let (kind, button, key) = match input {
            PacketInput::Click { button } => (EventKind::Click, Some(button), None),
            PacketInput::KeyDown { key } => (EventKind::KeyDown, None, Some(key)),
        };
        let shot_paths = ShotPaths::for_event(event_id.as_str());
        let event = Event {
            id: event_id,
            ts: event_timestamp(now_ms),
            kind,
            display_id,
            pos,
            button,
            key,
            window,
            element,
            shots: shot_paths,
            capture: CaptureMeta { frame_age_ms },
        };
        PacketDecision::Persist { event, shots, frontmost_app }
    }

    /// Records a committed event: its step is parsed (`step_{seq:04}`,
    /// for the current event number), kept for the manifest, and
    /// published with the event's timestamp.
    pub fn committed(&mut self, event: &Event, frontmost_app: Option<&str>) -> (r: LiveEnvelope)
        ensures
            final(self).persisted() == old(self).persisted(),
            final(self).session_id() == old(self).session_id(),
            final(self).pid() == old(self).pid(),
            final(self).committed_steps().len() == old(self).committed_steps().len() + 1,
            final(self).committed_steps().drop_last() == old(self).committed_steps(),
            r matches LiveEnvelope::Step { step, ts } && ts@ == event.ts@ && step@
                == final(self).committed_steps().last()@,
            ({
                let step = final(self).committed_steps().last();
                &&& step.id@ == step_id_for(old(self).persisted())
                &&& step.event_ids@.len() == 1
                &&& step.event_ids@[0]@ == event.id@
                &&& step.classification == default_classification(event.kind)
                &&& step.title@ == title(*event, opt_view(frontmost_app))
                &&& step.description@ == Seq::<char>::empty()
            }),
    {
        let step_id = numbered_id("step_", self.seq);
        let step = parse_step(step_id, event, frontmost_app);
        let published = LiveEnvelope::Step { step: copy_step(&step), ts: event.ts.clone() };
        self.steps.push(step);
        published
    }

    /// Decides one input of the worker loop. A packet goes through
    /// `accept_packet`; once every event number is taken (`u32::MAX`
    /// events), a further packet fail-stops the session. A pipeline
    /// failure fail-stops with its error, a stop request stops, and a
    /// channel whose every sender vanished abandons the session with no
    /// terminal.
    pub fn on_input(&mut self, input: WorkerInput) -> (r: WorkerStep)
        requires
            input matches WorkerInput::Packet { now_ms, .. } ==> representable(now_ms),
        ensures
            final(self).committed_steps() == old(self).committed_steps(),
            final(self).session_id() == old(self).session_id(),
            final(self).pid() == old(self).pid(),
            input matches WorkerInput::Packet { packet, .. } ==> (packet.window is None
                && old(self).persisted() < u32::MAX ==> r is Persist && final(self).persisted()
                == old(self).persisted() + 1),
            input matches WorkerInput::Packet { packet, .. } ==> ((packet.window matches Some(w)
                && w.pid == old(self).pid()) ==> r is Continue && final(self).persisted()
                == old(self).persisted()),
            match input {
                WorkerInput::Packet { packet, now_ms } => if is_own(packet, old(self).pid()) {
                    r is Continue && final(self).persisted() == old(self).persisted()
                } else if old(self).persisted() == u32::MAX {
                    &&& final(self).persisted() == old(self).persisted()
                    &&& r matches WorkerStep::Finish(Outcome::Failed(e))
                    &&& e@ == "event numbers exhausted"@
                } else {
                    &&& final(self).persisted() == old(self).persisted() + 1
                    &&& r matches WorkerStep::Persist { event, shots, frontmost_app }
                    &&& event_matches_packet(event, packet, final(self).persisted(), now_ms)
                    &&& shots == packet.shots
                    &&& frontmost_app == packet.frontmost_app
                },
                WorkerInput::PipelineFailed(error) => final(self).persisted() == old(self).persisted()
                    && r == WorkerStep::Finish(Outcome::Failed(error)),
                WorkerInput::Stop => final(self).persisted() == old(self).persisted() && r
                    == WorkerStep::Finish(Outcome::Stopped),
                WorkerInput::Disconnected => final(self).persisted() == old(self).persisted() && r
                    is Abandon,
            },
    {
        match input {
            WorkerInput::Packet { packet, now_ms } => {
                let own = match &packet.window {
                    Some(window) => window.pid == self.own_pid,
                    None => false,
                };
                if own {
                    WorkerStep::Continue
                } else if self.seq == u32::MAX {
                    proof { reveal_strlit("event numbers exhausted"); }
                    WorkerStep::Finish(Outcome::Failed(String::from_str("event numbers exhausted")))
                } else {
                    match self.accept_packet(packet, now_ms) {
                        PacketDecision::Drop => WorkerStep::Continue,
                        PacketDecision::Persist { event, shots, frontmost_app } => WorkerStep::Persist {
                            event,
                            shots,
                            frontmost_app,
                        },
                    }
                }
            },
            WorkerInput::PipelineFailed(error) => WorkerStep::Finish(Outcome::Failed(error)),
            WorkerInput::Stop => WorkerStep::Finish(Outcome::Stopped),
            WorkerInput::Disconnected => WorkerStep::Abandon,
        }
    }

    /// Decides what follows the store's answer for an event `on_input`
    /// asked to persist: once committed, the step is recorded and
    /// published (as `committed` does); a failed write fail-stops the
    /// session with the store's error and records nothing.
    pub fn on_append(&mut self, event: &Event, frontmost_app: Option<&str>, result: Result<(), StoreError>) -> (r:
        Result<LiveEnvelope, Outcome>)
        ensures
            final(self).persisted() == old(self).persisted(),
            final(self).session_id() == old(self).session_id(),
            final(self).pid() == old(self).pid(),
            match result {
                Ok(()) => {
                    &&& final(self).committed_steps().len() == old(self).committed_steps().len() + 1
                    &&& final(self).committed_steps().drop_last() == old(self).committed_steps()
                    &&& r matches Ok(LiveEnvelope::Step { step, ts }) && ts@ == event.ts@ && step@
                        == final(self).committed_steps().last()@
                    &&& ({
                        let step = final(self).committed_steps().last();
                        &&& step.id@ == step_id_for(old(self).persisted())
                        &&& step.event_ids@.len() == 1
                        &&& step.event_ids@[0]@ == event.id@
                        &&& step.classification == default_classification(event.kind)
                        &&& step.title@ == title(*event, opt_view(frontmost_app))
                        &&& step.description@ == Seq::<char>::empty()
                    })
                },
                Err(error) => {
                    &&& final(self).committed_steps() == old(self).committed_steps()
                    &&& r matches Err(Outcome::Failed(e))
                    &&& e@ == "event persistence failed: "@ + store_error_message(error)
                },
            },
    {
        match result {
            Ok(()) => Ok(self.committed(event, frontmost_app)),
            Err(error) => Err(persistence_failure(&error)),
        }
    }

    /// Finalization: the manifest takes exactly the committed steps, in
    /// order. Consuming the worker means no step can follow.
    pub fn finalize(self, manifest: Manifest) -> (r: Manifest)
        ensures
            r.steps@ == self.committed_steps(),
            r.schema_version == manifest.schema_version,
            r.id == manifest.id,
            r.name == manifest.name,
            r.created_at == manifest.created_at,
    {
        Manifest { steps: self.steps, ..manifest }
    }
}

fn copy_strings(v: &Vec<String>) -> (r: Vec<String>)
    ensures
        strings_view(r@) == strings_view(v@),
{
    let mut out: Vec<String> = Vec::new();
    let mut i: usize = 0;
    while i < v.len()
        invariant
            0 <= i <= v@.len(),
            strings_view(out@) == strings_view(v@.take(i as int)),
        decreases v@.len() - i,
    {
        out.push(v[i].clone());
        proof {
            assert(strings_view(v@.take(i + 1)) =~= strings_view(v@.take(i as int)).push(v@[i as int]@));
            assert(strings_view(out@) =~= strings_view(v@.take(i + 1)));
        }
        i = i + 1;
    }
    assert(v@.take(v@.len() as int) =~= v@);
    out
}

/// A field-by-field copy of a step.
fn copy_step(step: &Step) -> (r: Step)
    ensures
        r@ == step@,
{
    Step {
        id: step.id.clone(),
        event_ids: copy_strings(&step.event_ids),
        classification: step.classification,
        title: step.title.clone(),
        description: step.description.clone(),
    }
}

/// How a session ended.
#[derive(Debug, Clone, PartialEq, Eq)]
pub enum Outcome {
    Stopped,
    Failed(String),
}

/// The fail-stop outcome of an event that could not be persisted.
pub fn persistence_failure(error: &StoreError) -> (r: Outcome)
    ensures
        r matches Outcome::Failed(e) && e@ == "event persistence failed: "@ + store_error_message(
            *error,
        ),
{
    let mut s = String::from_str("event persistence failed: ");
    let detail = error.to_string();
    s.append(detail.as_str());
    Outcome::Failed(s)
}

/// The message recorded when finalization could not save the manifest.
pub fn save_failure_message(error: &StoreError) -> (r: String)
    ensures
        r@ == "manifest save failed: "@ + store_error_message(*error),
{
    let mut s = String::from_str("manifest save failed: ");
    let detail = error.to_string();
    s.append(detail.as_str());
    s
}

/// The single terminal envelope of a session: a failure reports its
/// error; a stop reports `stopped` when the manifest saved, and the save
/// failure otherwise.
pub fn terminal_envelope(workflow_id: String, outcome: Outcome, save: &Result<(), StoreError>) -> (r:
    LiveEnvelope)
    ensures
        r.is_terminal_spec(),
        match outcome {
            Outcome::Failed(error) => r == (LiveEnvelope::Failed { workflow_id, error }),
            Outcome::Stopped => match save {
                Ok(()) => r == (LiveEnvelope::Stopped { workflow_id }),
                Err(e) => r matches LiveEnvelope::Failed { workflow_id: w, error } && w == workflow_id
                    && error@ == "manifest save failed: "@ + store_error_message(*e),
            },
        },
{
    match outcome {
        Outcome::Failed(error) => LiveEnvelope::Failed { workflow_id, error },
        Outcome::Stopped => match save {
            Ok(()) => LiveEnvelope::Stopped { workflow_id },
            Err(e) => LiveEnvelope::Failed { workflow_id, error: save_failure_message(e) },
        },
    }
}

} // verus!

//! What a capture pipeline hands its consumer: ordered capture packets,
//! each carrying the raw input facts, the resolved metadata, the buffered
//! frame age, and one encoded screenshot triple.

use vstd::prelude::*;

use crate::domain::schema::{ElementInfo, KeyInfo, MouseButton, Pos, WindowInfo};
use crate::recording::store::ShotPayloads;

verus! {

/// The raw input facts of one capture packet.
#[derive(Debug, Clone, PartialEq, Eq)]
pub enum PacketInput {
    Click { button: MouseButton },
    KeyDown { key: KeyInfo },
}

/// One ordered capture packet from a pipeline.
#[derive(Debug, Clone, PartialEq, Eq)]
pub struct CapturePacket {
    pub input: PacketInput,
    pub pos: Pos,
    pub display_id: u32,
    /// The hit window, or `None` when no window resolves.
    pub window: Option<WindowInfo>,
    pub element: ElementInfo,
    /// The frontmost application name at capture time, used for the
    /// null-window title fallback.
    pub frontmost_app: Option<String>,
    /// Age of the buffered pre-event frame when the event fired.
    pub frame_age_ms: u64,
    /// The encoded screenshot triple.
    pub shots: ShotPayloads,
}

/// What a running pipeline can report to its consumer.
#[derive(Debug, Clone, PartialEq, Eq)]
pub enum PipelineEvent {
    Packet(Box<CapturePacket>),
    /// The pipeline failed mid-recording (tap disabled, stream lost).
    /// Exactly one fail-stop transition follows, no matter how many
    /// failures are reported.
    Failed(String),
}

} // verus!

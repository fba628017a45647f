//! The typed live-channel envelope the UI consumes during a recording.
//!
//! Tagged `step` items stream one per captured event, followed by exactly
//! one terminal `stopped` or `failed` item (terminal-last). A channel
//! disconnect never interrupts disk persistence.

use vstd::prelude::*;

use crate::domain::schema::Step;

verus! {

/// One item on the live capture channel.
#[derive(Debug, Clone, PartialEq, Eq)]
pub enum LiveEnvelope {
    /// One parsed step, with its event's timestamp for the live rows.
    /// Published only after the event line and all three screenshots are
    /// committed to disk.
    Step { step: Step, ts: String },
    /// Terminal: the recording stopped and the manifest is saved.
    Stopped { workflow_id: String },
    /// Terminal: the recording fail-stopped. Committed events and shots
    /// are preserved and the manifest is saved with the committed steps.
    Failed { workflow_id: String, error: String },
}

impl LiveEnvelope {
    /// The terminal items: `stopped` and `failed`.
    pub open spec fn is_terminal_spec(&self) -> bool {
        self is Stopped || self is Failed
    }

    pub fn is_terminal(&self) -> (r: bool)
        ensures
            r == self.is_terminal_spec(),
    {
        match self {
            LiveEnvelope::Step { .. } => false,
            LiveEnvelope::Stopped { .. } => true,
            LiveEnvelope::Failed { .. } => true,
        }
    }
}

/// The recording worker's outbound seam. Delivery is best-effort: errors
/// are ignored so persistence never depends on the UI connection.
pub trait StepSink {
    fn emit(&self, item: LiveEnvelope) -> Result<(), String>;
}

} // verus!

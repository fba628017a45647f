//! What the command surface hands back across IPC.

use vstd::prelude::*;

use crate::recording::coordinator::{recording_error_message, RecordingError};
use crate::recording::store::StoreError;

verus! {

/// The IPC text of a command failure: the storage variants that carry a
/// filesystem path collapse to fixed path-free descriptions; every other
/// error passes through as its own message.
pub open spec fn path_free_message(error: RecordingError) -> Seq<char> {
    match error {
        RecordingError::Store(StoreError::SymlinkRejected(_)) =>
            "storage error: refused a symlinked location"@,
        RecordingError::Store(StoreError::Io { .. }) =>
            "storage error: could not access the workflow data"@,
        other => recording_error_message(other),
    }
}

/// Renders a command failure for IPC without any filesystem path.
pub fn path_free_error(error: &RecordingError) -> (r: String)
    ensures
        r@ == path_free_message(*error),
{
    match error {
        RecordingError::Store(StoreError::SymlinkRejected(_)) => String::from_str(
            "storage error: refused a symlinked location",
        ),
        RecordingError::Store(StoreError::Io { .. }) => String::from_str(
            "storage error: could not access the workflow data",
        ),
        other => other.to_string(),
    }
}

/// No filesystem path crosses IPC through the error channel: the
/// message of a path-bearing storage error holds no `/`, whatever path
/// or context the error carried.
pub proof fn lemma_path_bearing_errors_carry_no_slash(error: RecordingError)
    requires
        error matches RecordingError::Store(inner) && (inner is SymlinkRejected || inner is Io),
    ensures
        !path_free_message(error).contains('/'),
{
    reveal_strlit("storage error: refused a symlinked location");
    reveal_strlit("storage error: could not access the workflow data");
    let m = path_free_message(error);
    assert forall|i: int| 0 <= i < m.len() implies m[i] != '/' by {}
}

} // verus!

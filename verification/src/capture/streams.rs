//! The decisions of the display stream manager.
//!
//! One continuous stream runs per active display and the set restarts as
//! a whole when the display configuration changes. The control thread,
//! the platform streams and the frame delivery belong to the I/O shell.
//! Decided here: how a burst of control signals collapses into one
//! action, and when a (re)start of the stream set fails.

use vstd::prelude::*;

verus! {

/// A signal to the manager's control thread.
#[derive(Debug, Clone, Copy, PartialEq, Eq, Structural)]
pub enum StreamCommand {
    /// The display configuration changed; restart the stream set.
    Reconfigured,
    Stop,
}

/// What the manager does with one batch of signals.
#[derive(Debug, Clone, Copy, PartialEq, Eq, Structural)]
pub enum ManagerAction {
    Stop,
    Restart,
}

/// A batch of signals — the one received and those already pending —
/// collapses to one action: stop when any of them asks to stop, else one
/// restart (the OS fires several reconfiguration signals per change).
pub open spec fn batch_action(first: StreamCommand, pending: Seq<StreamCommand>) -> ManagerAction {
    if first == StreamCommand::Stop || pending.contains(StreamCommand::Stop) {
        ManagerAction::Stop
    } else {
        ManagerAction::Restart
    }
}

/// Collapses a batch of control signals into one action.
pub fn coalesce(first: StreamCommand, pending: &Vec<StreamCommand>) -> (r: ManagerAction)
    ensures
        r == batch_action(first, pending@),
{
    if first == StreamCommand::Stop {
        return ManagerAction::Stop;
    }
    let mut i: usize = 0;
    while i < pending.len()
        invariant
            0 <= i <= pending@.len(),
            forall|j: int| 0 <= j < i ==> pending@[j] != StreamCommand::Stop,
        decreases pending@.len() - i,
    {
        if pending[i] == StreamCommand::Stop {
            assert(pending@.contains(StreamCommand::Stop)) by {
                assert(pending@[i as int] == StreamCommand::Stop);
            }
            return ManagerAction::Stop;
        }
        i = i + 1;
    }
    ManagerAction::Restart
}

/// Why a start of the stream set fails: an empty display set, or the
/// enumeration's own error.
pub open spec fn start_failure(enumerated: Result<usize, Seq<char>>) -> Option<Seq<char>> {
    match enumerated {
        Ok(n) => if n == 0 {
            Some("no active displays to capture"@)
        } else {
            None
        },
        Err(e) => Some(e),
    }
}

/// The initial start: the display count, or the enumeration error.
pub fn initial_start_failure(enumerated: Result<usize, String>) -> (r: Option<String>)
    ensures
        r matches Some(m) ==> start_failure(
            match enumerated {
                Ok(n) => Ok(n),
                Err(e) => Err(e@),
            },
        ) == Some(m@),
        r is None <==> start_failure(
            match enumerated {
                Ok(n) => Ok(n),
                Err(e) => Err(e@),
            },
        ) is None,
{
    match enumerated {
        Ok(n) => if n == 0 {
            Some(String::from_str("no active displays to capture"))
        } else {
            None
        },
        Err(e) => Some(e),
    }
}

/// Why a restart after a configuration change fails.
pub open spec fn restart_failure(enumerated: Result<usize, Seq<char>>) -> Option<Seq<char>> {
    match enumerated {
        Ok(n) => if n == 0 {
            Some("display configuration changed to no active displays"@)
        } else {
            None
        },
        Err(e) => Some("display reconfiguration failed to enumerate displays: "@ + e),
    }
}

/// The failure of a restart's display enumeration, if any.
pub fn reconfigure_failure(enumerated: Result<usize, String>) -> (r: Option<String>)
    ensures
        r matches Some(m) ==> restart_failure(
            match enumerated {
                Ok(n) => Ok(n),
                Err(e) => Err(e@),
            },
        ) == Some(m@),
        r is None <==> restart_failure(
            match enumerated {
                Ok(n) => Ok(n),
                Err(e) => Err(e@),
            },
        ) is None,
{
    match enumerated {
        Ok(n) => if n == 0 {
            Some(String::from_str("display configuration changed to no active displays"))
        } else {
            None
        },
        Err(e) => {
            let mut s = String::from_str("display reconfiguration failed to enumerate displays: ");
            s.append(e.as_str());
            Some(s)
        },
    }
}

/// The failure when the new stream set cannot start.
pub fn restart_stream_failure(error: &str) -> (r: String)
    ensures
        r@ == "stream restart after display change failed: "@ + error@,
{
    let mut s = String::from_str("stream restart after display change failed: ");
    s.append(error);
    s
}

} // verus!

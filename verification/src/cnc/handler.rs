//! The session loop between a browser's websocket and the controller
//! state.
use vstd::prelude::*;
use crate::cnc::commands::Command;

verus! {

/// What the websocket delivered.
pub enum InboundFrame {
    /// A text message: a command in JSON.
    Text(String),
    /// A message of another kind.
    Other,
    /// Reading the socket failed.
    Failed,
    /// The socket closed.
    Closed,
}

/// What the session does next.
pub enum SessionStep {
    /// Parse the text as a command and apply it.
    Dispatch(String),
    /// End the session.
    Stop,
}

/// The command every session starts with: switch LinuxCNC on.
pub fn opening_command() -> (c: Command)
    ensures
        c == Command::Lcnc(true),
{
    Command::Lcnc(true)
}

/// The session goes on as long as text messages arrive; anything else ends
/// it.
pub fn next_step(frame: InboundFrame) -> (step: SessionStep)
    ensures
        match frame {
            InboundFrame::Text(t) => step matches SessionStep::Dispatch(d) && d@ == t@,
            _ => step is Stop,
        },
{
    match frame {
        InboundFrame::Text(t) => SessionStep::Dispatch(t),
        _ => SessionStep::Stop,
    }
}

} // verus!

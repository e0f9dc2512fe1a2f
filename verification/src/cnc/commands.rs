//! The commands the browser client sends.
use vstd::prelude::*;
use crate::cnc::state::SpindleState;

verus! {

/// A command from the browser client. The spindle speed is held as the
/// bit pattern of its `f64` value (`f64::to_bits`).
pub enum Command {
    Lcnc(bool),
    Estop(bool),
    Power(bool),
    LoadProgram { name: String },
    ListPrograms,
    CreateProgram { name: String },
    UpdateProgram { name: String, content: String },
    DeleteProgram { name: String },
    RunCurrentProgram { from_line: u64 },
    GetCurrentProgramExtensions,
    SetSpindleSpeed { dir: SpindleState, speed_bits: u64 },
}

} // verus!

//! The controller side: commands from the browser, the controller state
//! and its start-up sequence, the session loop and the line protocol.
pub mod commands;
pub mod handler;
pub mod protocol;
pub mod state;

//! Framing of the controller's text protocol and the ssh channel glue.
pub mod recv;
pub mod send;
pub mod ssh;

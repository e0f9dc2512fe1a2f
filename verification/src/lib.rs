//! The logic of a small web bridge between a browser client and a
//! LinuxCNC controller: request routing, the websocket handshake, the
//! client configuration, the controller state and its start-up sequence,
//! and the line-oriented framing of the controller protocol.
pub mod encoding;
pub mod endpoints;
pub mod client_config;
pub mod cnc;
pub mod options;
pub mod router;
pub mod text;

//! The configuration handed to the browser client: where its websocket
//! connects.
use vstd::prelude::*;
use crate::options::InputOptions;
use crate::text::{decimal, push_decimal};

verus! {

/// The client configuration.
pub struct ClientConfig {
    pub lcnc_host: String,
}

/// The websocket address `ws://{host}:{port}/ws`.
pub open spec fn ws_address(host: Seq<char>, port: u16) -> Seq<char> {
    "ws://"@ + host + ":"@ + decimal(port as nat) + "/ws"@
}

/// Builds `ws://{host}:{port}/ws`.
pub fn ws_address_text(host: &str, port: u16) -> (address: String)
    ensures
        address@ == ws_address(host@, port),
{
    let mut address = String::new();
    address.append("ws://");
    address.append(host);
    address.append(":");
    push_decimal(&mut address, port as u64);
    address.append("/ws");
    address
}

impl Default for ClientConfig {
    fn default() -> (config: Self)
        ensures
            config.lcnc_host@ == ws_address("127.0.0.1"@, 80),
    {
        ClientConfig { lcnc_host: ws_address_text("127.0.0.1", 80) }
    }
}

impl ClientConfig {
    /// The configuration that points the client at this server's own
    /// host and listening port.
    pub fn from_options(opts: &InputOptions) -> (config: Self)
        ensures
            config.lcnc_host@ == ws_address(opts.my_host@, opts.listen_port),
    {
        ClientConfig { lcnc_host: ws_address_text(opts.my_host.as_str(), opts.listen_port) }
    }
}

} // verus!

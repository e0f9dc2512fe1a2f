//! The endpoint that hands the client its configuration.
use vstd::prelude::*;
use crate::client_config::{ws_address, ClientConfig};
use crate::options::InputOptions;

verus! {

/// The configuration served to the client: the one built from the server's
/// options when the request carries them, else the default one. The reply
/// body is this configuration in JSON.
pub fn handler(options: Option<&InputOptions>) -> (config: ClientConfig)
    ensures
        config.lcnc_host@ == (match options {
            Some(o) => ws_address(o.my_host@, o.listen_port),
            None => ws_address("127.0.0.1"@, 80),
        }),
{
    match options {
        Some(o) => ClientConfig::from_options(o),
        None => ClientConfig::default(),
    }
}

} // verus!

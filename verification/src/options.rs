//! The command-line options of the server.
use vstd::prelude::*;

verus! {

/// The options the server is started with.
pub struct InputOptions {
    pub listen_port: u16,
    pub path_to_compiled_client: String,
    pub my_host: String,
    pub lcnc_rsh_host: String,
    pub lcnc_rsh_port: u16,
    pub temp_ngc_files: String,
    pub ssh_user: String,
    pub cmd: String,
}

} // verus!

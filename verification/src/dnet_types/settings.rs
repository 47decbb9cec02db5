//! Settings as the daemon reports them.
use vstd::prelude::*;
use super::ip::IpAddr;

verus! {

/// The role a daemon plays in the network.
#[derive(Clone, Copy, Debug, PartialEq, Eq, Structural)]
pub enum RunMode {
    Proxy,
    Client,
    Center,
}

/// General settings.
pub struct Common {
    pub conductor_url: String,
    pub home_path: String,
    pub log_level: String,
    pub log_dir: String,
    pub mode: RunMode,
    pub username: String,
    pub password: String,
}

/// Settings of a proxy.
pub struct Proxy {
    pub local_ip: Option<IpAddr>,
    /// The port of the local HTTPS server, as the settings file writes it.
    pub local_port: String,
    pub local_https_server_certificate_file: String,
    pub local_https_server_privkey_file: String,
    pub proxy_type: String,
}

/// Settings of a client.
pub struct Client {
    pub auto_connect: bool,
}

/// All settings, with the time of the last run.
pub struct Settings {
    pub common: Common,
    pub proxy: Proxy,
    pub client: Client,
    pub last_runtime: String,
}

} // verus!

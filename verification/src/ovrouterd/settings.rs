//! The sections of the router daemon's `settings.toml`.
use vstd::prelude::*;

verus! {

/// Where tinc is installed.
pub struct Tinc {
    pub home_path: String,
    pub pub_key_path: String,
}

/// The conductor.
pub struct Server {
    pub url: String,
    pub geo_url: String,
}

/// The router's own settings.
pub struct Client {
    pub log_level: Option<String>,
    pub log_dir: Option<String>,
    pub username: String,
    pub password: String,
    pub local_port: String,
    pub local_https_server_certificate_file: String,
    pub local_https_server_privkey_file: String,
}

/// All settings.
pub struct Settings {
    pub server: Server,
    pub client: Client,
    pub tinc: Tinc,
}

} // verus!

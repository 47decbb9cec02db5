//! The sections of `settings.toml` as they were read: every value is
//! optional text.
use vstd::prelude::*;
use crate::dnet_types::ip::IpAddr;

verus! {

/// The `[common]` section.
pub struct Common {
    pub home_path: Option<String>,
    pub log_level: Option<String>,
    pub log_dir: Option<String>,
    pub mode: Option<String>,
    pub conductor_url: Option<String>,
    pub username: Option<String>,
    pub password: Option<String>,
}

/// An IP address given as text, after an attempt to read it.
pub enum IpText {
    /// The text is an IP address.
    Parsed(IpAddr),
    /// The text is not an IP address.
    Unparsable,
}

/// The `[proxy]` section.
pub struct Proxy {
    pub local_ip: Option<IpText>,
    pub local_port: Option<String>,
    pub local_https_server_certificate_file: Option<String>,
    pub local_https_server_privkey_file: Option<String>,
    pub proxy_type: Option<String>,
}

/// The `[client]` section.
pub struct Client {
    pub auto_connect: Option<String>,
}

/// The integer settings of the `[tinc]` section.
pub struct Tinc {
    pub tinc_check_frequency: Option<String>,
    pub tinc_allowed_out_memory_times: Option<String>,
    pub tinc_allowed_tcp_failed_times: Option<String>,
    pub tinc_debug_level: Option<String>,
}

/// The whole file.
pub struct FileSettings {
    pub common: Option<Common>,
    pub proxy: Option<Proxy>,
    pub client: Option<Client>,
    pub tinc: Option<Tinc>,
}

/// The text of an optional string.
pub open spec fn opt_text(o: Option<String>) -> Option<Seq<char>> {
    match o {
        Some(s) => Some(s@),
        None => None,
    }
}

} // verus!

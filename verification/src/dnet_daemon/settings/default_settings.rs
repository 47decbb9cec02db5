//! Default values of the settings.
use vstd::prelude::*;

verus! {

/// Log level when the file sets none.
pub const DEFAULT_LOG_LEVEL: &'static str = "Error";

/// Home directory on Linux.
pub const DEFAULT_LINUX_DEFAULT_HOME_PATH: &'static str = "/opt/dnet";

/// HTTPS port of a proxy's local server.
pub const DEFAULT_PROXY_LOCAL_SERVER_PORT: u16 = 443;

/// Proxy type when the file sets none.
pub const DEFAULT_PROXY_TYPE: &'static str = "other";

/// Whether a client connects at start when the file does not say.
pub const DEFAULT_CLIENT_AUTO_CONNECT: bool = true;

/// Seconds between heartbeats.
pub const HEARTBEAT_FREQUENCY_SEC: u32 = 20;

/// Whether a proxy is public by default.
pub const DEFAULT_PROXY_PUBLIC: bool = false;

/// Name of the tinc network interface.
pub const TINC_INTERFACE: &'static str = "dnet";

} // verus!

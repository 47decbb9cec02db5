//! Verified core of the dnet VPN daemons: settings resolution, tinc
//! configuration text, daemon state machines and the small parsers that
//! read command output.
pub mod dnet_daemon;
pub mod dnet_path;
pub mod dnet_types;
pub mod net_tool;
pub mod ovrouter;
pub mod ovrouter_graphql;
pub mod ovrouterd;
pub mod pinger;
pub mod proxy_core;
pub mod router_plugin;
pub mod text;

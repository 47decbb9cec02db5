//! Types shared between the daemon and its front ends.
pub mod daemon_broadcast;
pub mod device_type;
pub mod ip;
pub mod proxy;
pub mod response;
pub mod settings;
pub mod states;
pub mod team;
pub mod tinc_host_status_change;
pub mod user;

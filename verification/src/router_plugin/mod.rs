//! The router plug-in: the router's LANs, its serial number and its
//! firewall.
pub mod device_info;
pub mod firewall;
pub mod sn;

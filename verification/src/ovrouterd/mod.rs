//! The second router daemon: its start-up log settings, its settings, the
//! outgoing interface, the freshness of its key, its event loop and the
//! supervision of tinc and of the conductor.
pub mod daemon;
pub mod domain;
pub mod log_level;
pub mod rpc_monitor;
pub mod settings;
pub mod tinc_manager;

//! Supervision of the tinc daemon.
pub mod operator;
pub mod tinc_event_handle;
pub mod tinc_monitor;

//! Supervision of tinc by the router daemon.
pub mod check;
pub mod operator;
pub mod tinc_monitor;

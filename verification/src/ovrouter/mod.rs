//! The first router daemon: its job scheduler and the tinc configuration
//! it writes.
pub mod daemon;
pub mod domain;
pub mod tinc;

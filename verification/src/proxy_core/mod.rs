//! The proxy daemon's core: its event loop, the commands it runs to learn
//! about the machine, and the reading of their output.
pub mod daemon;
pub mod net_tool;
pub mod tinc_manager;

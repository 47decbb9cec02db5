//! The client/proxy daemon: settings, tinc management and the traits its
//! components implement.
pub mod settings;
pub mod tinc_manager;
pub mod traits;

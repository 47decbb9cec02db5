//! Settings of the daemon: defaults, the raw file sections and the settings
//! resolved from them.
pub mod default_settings;
pub mod error;
pub mod parse_file;
pub mod path;
pub mod run_time_settings;

pub use error::Error;
pub use run_time_settings::Settings;

//! Finds a Roblox Studio installation and the paths that belong to it.
//!
//! The search is a sequence of decisions, [`RobloxStudio::locate`], that asks the
//! host one question at a time (the override variable, the registry, the file
//! system, ...) and ends with the installation's paths or an [`Error`].
pub mod error;
pub mod laws;
pub mod locate;
pub mod path;
pub mod studio;
pub mod text;

pub use error::Error;
pub use studio::RobloxStudio;

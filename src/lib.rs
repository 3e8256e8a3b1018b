//! Loading native plugin modules at runtime: a manager that owns each loaded
//! module together with the plugin instance it constructed, activates every
//! instance exactly once, and answers queries by plugin name.

pub mod error;
pub mod laws;
pub mod manager;
pub mod plugin;

//! Configuration and plugin-registry bootstrap of an application launcher:
//! the settings document with its defaults, reading and writing it, and the
//! registry of loaded plugins by prefix.
pub mod bootstrap;
pub mod config;
pub mod document;
pub mod registry;
pub mod settings;

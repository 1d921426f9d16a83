//! Verified core of the LibreTune plugin host and firmware-build tooling.
pub mod text;
pub mod plugin_system;
pub mod plugin_api;
pub mod agent;
pub mod missing_headers;
pub mod speeduino_build;

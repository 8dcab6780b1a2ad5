//! Discovery: scan settings and their defaults.
pub mod defaults;
pub mod scan_settings;
pub mod config;

//! Credentials: their kinds and targets, how targets are resolved into
//! per-kind mappings for a discovery, and how secrets are shown.
pub mod mapping;
pub mod metadata;
pub mod secrets;
pub mod service;
pub mod targets;
pub mod unifi;

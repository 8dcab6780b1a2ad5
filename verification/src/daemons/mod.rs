//! Daemons: install artifacts and version policy.
pub mod install;
pub mod version;
pub mod ssrf;
pub mod monitoring;

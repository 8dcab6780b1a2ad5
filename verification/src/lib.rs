//! Verified core of the Scanopy server: billing plans and their rules,
//! scan settings, daemon install and version policies, credential targeting
//! and the other decisions the server makes on plain data.
use vstd::prelude::*;

pub mod auth;
pub mod billing;
pub mod bindings;
pub mod credentials;
pub mod daemon_api_keys;
pub mod daemons;
pub mod dashboard;
pub mod dependencies;
pub mod digest;
pub mod discovery;
pub mod domains;
pub mod fields;
pub mod ids;
pub mod net;
pub mod text;

verus! {
}

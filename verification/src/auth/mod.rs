//! Authentication: the password policy, the demo-host rules, the signup
//! deliverability check, and the requests of the auth endpoints.
pub mod dns;
pub mod hosts;
pub mod password;
pub mod requests;
pub mod oidc;
pub mod provision;

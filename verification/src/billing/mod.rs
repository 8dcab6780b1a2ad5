//! Plans, their features and pricing, and the subscription rules built on
//! them.
pub mod features;
pub mod plan;
pub mod retention;
pub mod api;
pub mod cancel;
pub mod subscription;
pub mod tier_order;
pub mod stripe_sync;
pub mod stripe_metadata;

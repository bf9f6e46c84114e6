//! Keeps one cloud server reachable: when a liveness probe fails and the
//! server is found shelved and offloaded, ask the cloud to unshelve it, and
//! poll again sooner while it comes back.

pub mod status;
pub mod config;
pub mod reconcile;
pub mod socket;
pub mod resolve;
pub mod addresses;

//! What the daemon and its clients exchange.

pub mod envelope;
pub mod helpers;
pub mod payloads;
pub mod responses;
pub mod types;
pub mod usage;

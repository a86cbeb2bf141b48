//! The outbound HTTP client: which requests it accepts and how it sends
//! their bodies.

pub mod client;
pub mod types;

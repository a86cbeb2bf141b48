//! Verified core of a desktop launcher: the local OAuth redirect capture
//! service and the configuration rules that surround it.

pub mod config;
pub mod http;
pub mod logging;
pub mod server;
pub mod text;

//! The local redirect capture service: one listener at a time, started on
//! demand, that hands the parameters of a browser redirect back to its host.

pub mod commands;
pub mod handlers;
pub mod laws;
pub mod lifecycle;
pub mod params;
pub mod routes;
pub mod session;

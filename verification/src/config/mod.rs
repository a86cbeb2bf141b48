//! The launcher's configuration: its shape, its defaults, the values its
//! fields may take, and the rules by which it is cached and stored.

pub mod backups;
pub mod crypto;
pub mod error;
pub mod manager;
pub mod types;
pub mod utils;

//! The log: what a line of it looks like.

pub mod format;

//! Preparing each cycle's output for the two sinks.
//!
//! `discord` builds the structured chat message, `file` the plain-text log
//! and the collision-free file name; the delivery itself happens outside
//! the library.

pub mod discord;
pub mod file;

//! A lightweight host-monitoring agent core.
//!
//! The library samples resource-usage metrics from an abstract system
//! snapshot, compares them against operator-configured limits, and prepares
//! the per-cycle output for a sink (a chat channel or a set of log files).
//! All I/O — reading the OS counters, sending chat messages, writing files —
//! lives outside this crate; the logic here is verified.

pub mod logging;
pub mod metrics;
pub mod parse_config;
pub mod text;

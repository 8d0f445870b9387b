//! A host-metrics library: pure collectors that turn raw operating-system
//! readings into snapshot values, an aggregator that folds them into one
//! response envelope, and the small pieces of text handling (port
//! configuration, access-log lines, the catch-all response body) that the
//! surrounding HTTP server needs.

pub mod access_log;
pub mod aggregate;
pub mod config;
pub mod cpu;
pub mod disk;
pub mod host;
pub mod memory;
pub mod model;
pub mod net;
pub mod text;

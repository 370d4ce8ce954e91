//! Resolution of a tool's effective configuration: an ascending search for the
//! project marker file, and the read-only configuration built from its outcome.

pub mod config;
pub mod filesystem;
pub mod frozen;
pub mod memory;
pub mod path;
pub mod search;

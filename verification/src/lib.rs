//! Remote command execution over a set of hosts: a registry of authenticated
//! sessions, command rewriting for privilege elevation, and per-host result
//! classification.

pub mod config;
pub mod error;
pub mod executor;
pub mod model;
pub mod rewrite;
pub mod ssh;
pub mod transport;

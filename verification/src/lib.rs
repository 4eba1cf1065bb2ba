//! Verified core of a clip acquisition pipeline: credential lifecycle
//! management, cursor-paginated metadata collection, derivation of
//! downloadable media addresses from thumbnail addresses, and a
//! bounded-concurrency download schedule with per-item failure isolation.
//!
//! All network and filesystem work happens outside this crate; the functions
//! here take plain values (timestamps, page outcomes, task lists) and return
//! the decisions and data the surrounding program acts on.

pub mod args;
pub mod auth;
pub mod clips;
pub mod config;
pub mod naming;
pub mod resolver;
pub mod schedule;
pub mod state;
pub mod text;

//! Verified core of a Viable System Model runtime.
//!
//! The crate holds the decision logic of the runtime: typed protocol records,
//! runtime configuration, the role builder, the brokered message model and the
//! per-subsystem state machines. Actor plumbing, timers and I/O stay outside;
//! they hand the library plain values and perform the actions it returns.

pub mod actor_support;
pub mod builder;
pub mod cancellation;
pub mod channels;
pub mod config;
pub mod domain;
pub mod json;
pub mod dup;
pub mod error;
pub mod support;
pub mod text;
pub mod kernel;
pub mod legacy;
pub mod names;
pub mod protocol;

//! Decision cores of the runtime components.
//!
//! Each component is a state machine over plain values. The actor layer feeds
//! it events (requests, role results, delivery outcomes) and carries out the
//! actions it returns.

pub mod system1;
pub mod system2;
pub mod system3;
pub mod system4;
pub mod system5;
pub mod variety;
pub mod recursion;
pub mod event_bus;
pub mod registry;

//! Typed protocol records exchanged between runtime components.

pub mod address;
pub mod bus;
pub mod envelope;
pub mod snapshot;
pub mod system1;
pub mod system2;
pub mod system3;
pub mod system4;
pub mod system5;
pub mod algedonic;
pub mod temporal;
pub mod variety;
pub mod recursion;

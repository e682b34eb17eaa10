//! Adapters between the JSON-facing System 1 facade and the typed records.

pub mod system1;

//! Temporal analysis vocabulary.
//!
//! Windows are milliseconds. Samples, aggregates and forecasts carry
//! floating-point values, so they have no record here.

use vstd::prelude::*;

verus! {

/// Named temporal scale and retention window.
#[derive(Debug, PartialEq, Eq)]
pub struct TemporalScale {
    pub name: String,
    pub window_ms: u64,
    pub schema_version: u64,
}

impl TemporalScale {
    /// Creates a temporal scale at schema version 1.
    pub fn new(name: String, window_ms: u64) -> (r: Self)
        ensures
            r.name == name,
            r.window_ms == window_ms,
            r.schema_version == 1,
    {
        TemporalScale { name, window_ms, schema_version: 1 }
    }
}

/// Category for a temporal pattern.
#[derive(Debug, PartialEq, Eq)]
pub enum TemporalPatternKind {
    Trend,
    Cycle,
    Seasonality,
    Anomaly,
    Custom(String),
}

} // verus!

//! Runtime configuration for the builder surface.
//!
//! Durations are milliseconds.

use vstd::prelude::*;

use crate::protocol::address::{RecursionPath, RuntimeId};

verus! {

/// Default work timeout: thirty seconds.
pub const DEFAULT_WORK_TIMEOUT_MS: u64 = 30_000;

/// Default readiness timeout: ten seconds.
pub const DEFAULT_READINESS_TIMEOUT_MS: u64 = 10_000;

/// Default shutdown timeout: ten seconds.
pub const DEFAULT_SHUTDOWN_TIMEOUT_MS: u64 = 10_000;

/// Default observer event buffer capacity.
pub const DEFAULT_EVENT_BUFFER_CAPACITY: usize = 1024;

/// Configuration owned by one runtime instance.
///
/// Generated component addresses and actor names derive from `runtime_id` and
/// `recursion_path`.
#[derive(Debug, Clone, PartialEq, Eq)]
pub struct RuntimeConfig {
    pub runtime_id: RuntimeId,
    pub recursion_path: RecursionPath,
    pub default_work_timeout_ms: u64,
    pub readiness_timeout_ms: u64,
    pub shutdown_timeout_ms: u64,
    pub max_registered_units: Option<usize>,
    pub event_buffer_capacity: usize,
}

impl RuntimeConfig {
    /// Creates a configuration for a runtime at the root path with the default timeouts,
    /// no unit limit and the default event buffer.
    pub fn new(runtime_id: RuntimeId) -> (r: Self)
        ensures
            r.runtime_id == runtime_id,
            r.recursion_path@.len() == 0,
            r.default_work_timeout_ms == DEFAULT_WORK_TIMEOUT_MS,
            r.readiness_timeout_ms == DEFAULT_READINESS_TIMEOUT_MS,
            r.shutdown_timeout_ms == DEFAULT_SHUTDOWN_TIMEOUT_MS,
            r.max_registered_units is None,
            r.event_buffer_capacity == DEFAULT_EVENT_BUFFER_CAPACITY,
    {
        RuntimeConfig {
            runtime_id,
            recursion_path: RecursionPath::root(),
            default_work_timeout_ms: DEFAULT_WORK_TIMEOUT_MS,
            readiness_timeout_ms: DEFAULT_READINESS_TIMEOUT_MS,
            shutdown_timeout_ms: DEFAULT_SHUTDOWN_TIMEOUT_MS,
            max_registered_units: None,
            event_buffer_capacity: DEFAULT_EVENT_BUFFER_CAPACITY,
        }
    }

    /// Sets the recursion path.
    pub fn with_recursion_path(self, recursion_path: RecursionPath) -> (r: Self)
        ensures
            r == (RuntimeConfig { recursion_path, ..self }),
    {
        RuntimeConfig { recursion_path, ..self }
    }

    /// Sets the default work timeout.
    pub fn with_default_work_timeout(self, timeout_ms: u64) -> (r: Self)
        ensures
            r == (RuntimeConfig { default_work_timeout_ms: timeout_ms, ..self }),
    {
        RuntimeConfig { default_work_timeout_ms: timeout_ms, ..self }
    }

    /// Sets the readiness timeout.
    pub fn with_readiness_timeout(self, timeout_ms: u64) -> (r: Self)
        ensures
            r == (RuntimeConfig { readiness_timeout_ms: timeout_ms, ..self }),
    {
        RuntimeConfig { readiness_timeout_ms: timeout_ms, ..self }
    }

    /// Sets the shutdown timeout.
    pub fn with_shutdown_timeout(self, timeout_ms: u64) -> (r: Self)
        ensures
            r == (RuntimeConfig { shutdown_timeout_ms: timeout_ms, ..self }),
    {
        RuntimeConfig { shutdown_timeout_ms: timeout_ms, ..self }
    }

    /// Sets the maximum number of units that can be registered.
    pub fn with_max_registered_units(self, max_units: usize) -> (r: Self)
        ensures
            r == (RuntimeConfig { max_registered_units: Some(max_units), ..self }),
    {
        RuntimeConfig { max_registered_units: Some(max_units), ..self }
    }

    /// Removes the registered-unit limit.
    pub fn with_unbounded_registered_units(self) -> (r: Self)
        ensures
            r == (RuntimeConfig { max_registered_units: None, ..self }),
    {
        RuntimeConfig { max_registered_units: None, ..self }
    }

    /// Sets the observer event buffer capacity.
    pub fn with_event_buffer_capacity(self, capacity: usize) -> (r: Self)
        ensures
            r == (RuntimeConfig { event_buffer_capacity: capacity, ..self }),
    {
        RuntimeConfig { event_buffer_capacity: capacity, ..self }
    }
}

impl Default for RuntimeConfig {
    /// A configuration for a fresh runtime identity.
    fn default() -> (r: Self)
        ensures
            r.recursion_path@.len() == 0,
            r.default_work_timeout_ms == DEFAULT_WORK_TIMEOUT_MS,
            r.readiness_timeout_ms == DEFAULT_READINESS_TIMEOUT_MS,
            r.shutdown_timeout_ms == DEFAULT_SHUTDOWN_TIMEOUT_MS,
            r.max_registered_units is None,
            r.event_buffer_capacity == DEFAULT_EVENT_BUFFER_CAPACITY,
    {
        RuntimeConfig::new(RuntimeId::new())
    }
}

} // verus!

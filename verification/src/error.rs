//! Error vocabulary shared by the runtime state machines.

use vstd::prelude::*;

use crate::text::{concat2, concat3};

verus! {

/// Framework-level failure raised by the runtime itself.
#[derive(Debug)]
pub enum FrameworkError {
    Runtime { reason: String },
    InvalidProtocol { reason: String },
    Unavailable { target: String },
    Backpressured { reason: String },
    Timeout { operation: String },
    Cancelled,
    Shutdown,
    SnapshotIncompatible { key: String, reason: String },
}

/// Failure reported by application code.
#[derive(Debug)]
pub enum ApplicationFailure<E> {
    Rejected(E),
    Failed(E),
}

/// Error returned by a unit of work: either the application or the framework failed.
#[derive(Debug)]
pub enum WorkError<E> {
    Application(ApplicationFailure<E>),
    Framework(FrameworkError),
}

/// The human-readable message of a framework error.
pub open spec fn framework_message(e: FrameworkError) -> Seq<char> {
    match e {
        FrameworkError::Runtime { reason } => "runtime error: "@ + reason@,
        FrameworkError::InvalidProtocol { reason } => "invalid protocol: "@ + reason@,
        FrameworkError::Unavailable { target } => "target unavailable: "@ + target@,
        FrameworkError::Backpressured { reason } => "backpressured: "@ + reason@,
        FrameworkError::Timeout { operation } => "timed out: "@ + operation@,
        FrameworkError::Cancelled => "operation cancelled"@,
        FrameworkError::Shutdown => "runtime shutting down"@,
        FrameworkError::SnapshotIncompatible { key, reason } => "incompatible snapshot "@ + key@ + ": "@
            + reason@,
    }
}

impl FrameworkError {
    /// Returns the human-readable message of this error.
    pub fn message(&self) -> (r: String)
        ensures
            r@ == framework_message(*self),
    {
        match self {
            FrameworkError::Runtime { reason } => concat2("runtime error: ", reason.as_str()),
            FrameworkError::InvalidProtocol { reason } => concat2("invalid protocol: ", reason.as_str()),
            FrameworkError::Unavailable { target } => concat2("target unavailable: ", target.as_str()),
            FrameworkError::Backpressured { reason } => concat2("backpressured: ", reason.as_str()),
            FrameworkError::Timeout { operation } => concat2("timed out: ", operation.as_str()),
            FrameworkError::Cancelled => "operation cancelled".to_owned(),
            FrameworkError::Shutdown => "runtime shutting down".to_owned(),
            FrameworkError::SnapshotIncompatible { key, reason } => {
                let mut out = concat3("incompatible snapshot ", key.as_str(), ": ");
                out.append(reason.as_str());
                out
            },
        }
    }
}

impl<E> WorkError<E> {
    /// Lifts a framework error into a work error.
    pub fn from_framework(error: FrameworkError) -> (r: Self)
        ensures
            r == WorkError::<E>::Framework(error),
    {
        WorkError::Framework(error)
    }
}

/// Errors of the channel and service facade.
#[derive(Debug)]
pub enum VsmError {
    NotFound(String),
    AlreadyExists(String),
    InvalidInput(String),
    InvalidPayload(String),
    Validation(String),
    ActorUnavailable(String),
    ActorNotFound(String),
    UnitAlreadyRegistered(String),
    Supervisor(String),
    Ractor(String),
    Channel(String),
    Serialization(String),
    Runtime(String),
}

/// The human-readable message of a facade error: a fixed prefix and the detail.
pub open spec fn vsm_message(e: VsmError) -> Seq<char> {
    match e {
        VsmError::NotFound(s) => "not found: "@ + s@,
        VsmError::AlreadyExists(s) => "already exists: "@ + s@,
        VsmError::InvalidInput(s) => "invalid input: "@ + s@,
        VsmError::InvalidPayload(s) => "invalid payload: "@ + s@,
        VsmError::Validation(s) => "validation failed: "@ + s@,
        VsmError::ActorUnavailable(s) => "actor unavailable: "@ + s@,
        VsmError::ActorNotFound(s) => "actor not found: "@ + s@,
        VsmError::UnitAlreadyRegistered(s) => "unit already registered: "@ + s@,
        VsmError::Supervisor(s) => "supervisor error: "@ + s@,
        VsmError::Ractor(s) => "ractor error: "@ + s@,
        VsmError::Channel(s) => "channel error: "@ + s@,
        VsmError::Serialization(s) => "serialization error: "@ + s@,
        VsmError::Runtime(s) => "runtime error: "@ + s@,
    }
}

impl VsmError {
    /// Returns the human-readable message of this error.
    pub fn message(&self) -> (r: String)
        ensures
            r@ == vsm_message(*self),
    {
        match self {
            VsmError::NotFound(s) => concat2("not found: ", s.as_str()),
            VsmError::AlreadyExists(s) => concat2("already exists: ", s.as_str()),
            VsmError::InvalidInput(s) => concat2("invalid input: ", s.as_str()),
            VsmError::InvalidPayload(s) => concat2("invalid payload: ", s.as_str()),
            VsmError::Validation(s) => concat2("validation failed: ", s.as_str()),
            VsmError::ActorUnavailable(s) => concat2("actor unavailable: ", s.as_str()),
            VsmError::ActorNotFound(s) => concat2("actor not found: ", s.as_str()),
            VsmError::UnitAlreadyRegistered(s) => concat2("unit already registered: ", s.as_str()),
            VsmError::Supervisor(s) => concat2("supervisor error: ", s.as_str()),
            VsmError::Ractor(s) => concat2("ractor error: ", s.as_str()),
            VsmError::Channel(s) => concat2("channel error: ", s.as_str()),
            VsmError::Serialization(s) => concat2("serialization error: ", s.as_str()),
            VsmError::Runtime(s) => concat2("runtime error: ", s.as_str()),
        }
    }
}

} // verus!

//! Typed System 1 protocol records.

use std::collections::BTreeMap;

use vstd::prelude::*;

use crate::error::{ApplicationFailure, FrameworkError, WorkError};
use crate::dup::Duplicate;
use crate::text::texts;

use super::envelope::{Priority, ProtocolMetadata};

verus! {

/// Options supplied with a work request; the deadline is in epoch milliseconds.
#[derive(Debug, Clone, Copy, PartialEq, Eq, Structural)]
pub struct WorkOptions {
    pub deadline: Option<i64>,
    pub priority: Priority,
}

impl Default for WorkOptions {
    fn default() -> (r: Self)
        ensures
            r.deadline is None,
            r.priority == Priority::Normal,
    {
        WorkOptions { deadline: None, priority: Priority::Normal }
    }
}

/// Static description of one application capability.
#[derive(Debug, Clone, PartialEq, Eq)]
pub struct CapabilityDescription<C> {
    pub capability: C,
    pub description: Option<String>,
}

impl<C> CapabilityDescription<C> {
    /// Creates a capability description without optional text.
    pub fn new(capability: C) -> (r: Self)
        ensures
            r.capability == capability,
            r.description is None,
    {
        CapabilityDescription { capability, description: None }
    }

    /// Adds human-readable descriptive text.
    pub fn describe(self, description: String) -> (r: Self)
        ensures
            r.capability == self.capability,
            r.description == Some(description),
    {
        CapabilityDescription { capability: self.capability, description: Some(description) }
    }
}

/// Runtime capacity and admission state reported by a unit; observed at epoch milliseconds.
#[derive(Debug, Clone, Copy, PartialEq, Eq, Structural)]
pub struct CapacitySnapshot {
    pub observed_at: i64,
    pub in_flight: usize,
    pub max_in_flight: Option<usize>,
    pub accepting_work: bool,
}

/// A unit below its admission limit (or without one) accepts work.
pub open spec fn below_limit(in_flight: usize, max_in_flight: Option<usize>) -> bool {
    match max_in_flight {
        Some(max) => in_flight < max,
        None => true,
    }
}

impl CapacitySnapshot {
    /// Creates a capacity snapshot that accepts work exactly when below its limit.
    pub fn new(observed_at: i64, in_flight: usize, max_in_flight: Option<usize>) -> (r: Self)
        ensures
            r.observed_at == observed_at,
            r.in_flight == in_flight,
            r.max_in_flight == max_in_flight,
            r.accepting_work == below_limit(in_flight, max_in_flight),
    {
        let accepting_work = match max_in_flight {
            Some(max) => in_flight < max,
            None => true,
        };
        CapacitySnapshot { observed_at, in_flight, max_in_flight, accepting_work }
    }
}

/// Static descriptor used to register or restore an operational unit.
#[derive(Debug, PartialEq, Eq)]
pub struct UnitDescriptor {
    pub unit_id: String,
    pub capabilities: Vec<CapabilityDescription<String>>,
    pub labels: BTreeMap<String, String>,
}

/// The capability names a descriptor advertises, in order.
pub open spec fn capability_names(caps: Seq<CapabilityDescription<String>>) -> Seq<Seq<char>> {
    caps.map_values(|c: CapabilityDescription<String>| c.capability@)
}

/// The plain-value view of `UnitDescriptor`.
pub struct UnitDescriptorModel {
    pub unit_id: Seq<char>,
    pub capabilities: Seq<CapabilityDescription<String>>,
    pub labels: Map<String, String>,
}

impl UnitDescriptorModel {
    /// The capability names the descriptor advertises.
    pub open spec fn advertised(self) -> Seq<Seq<char>> {
        capability_names(self.capabilities)
    }
}

impl View for UnitDescriptor {
    type V = UnitDescriptorModel;

    open spec fn view(&self) -> UnitDescriptorModel {
        UnitDescriptorModel { unit_id: self.unit_id@, capabilities: self.capabilities@, labels: self.labels@ }
    }
}

impl Duplicate for UnitDescriptor {
    fn duplicate(&self) -> (r: Self) {
        self.copy()
    }
}

impl UnitDescriptor {
    /// The capability names this descriptor advertises.
    pub open spec fn advertised(&self) -> Seq<Seq<char>> {
        capability_names(self.capabilities@)
    }

    /// Creates a descriptor with no labels and undescribed capabilities.
    pub fn new(unit_id: String, capabilities: Vec<String>) -> (r: Self)
        ensures
            r.unit_id == unit_id,
            r.advertised() == texts(capabilities@),
            forall|i: int| 0 <= i < r.capabilities@.len() ==> r.capabilities@[i].description is None,
            r.labels@ == Map::<String, String>::empty(),
    {
        let mut described: Vec<CapabilityDescription<String>> = Vec::new();
        let n = capabilities.len();
        let mut i: usize = 0;
        while i < n
            invariant
                n == capabilities@.len(),
                i <= n,
                described@.len() == i,
                forall|j: int| 0 <= j < i ==> described@[j].capability == capabilities@[j],
                forall|j: int| 0 <= j < i ==> described@[j].description is None,
            decreases n - i,
        {
            described.push(CapabilityDescription::new(capabilities[i].clone()));
            i = i + 1;
        }
        let r = UnitDescriptor { unit_id, capabilities: described, labels: BTreeMap::new() };
        assert(r.advertised() =~= texts(capabilities@));
        r
    }

    /// Copies the descriptor.
    pub fn copy(&self) -> (r: Self)
        ensures
            r.unit_id == self.unit_id,
            r.capabilities@ == self.capabilities@,
            r.labels@ == self.labels@,
    {
        let mut caps: Vec<CapabilityDescription<String>> = Vec::new();
        let n = self.capabilities.len();
        let mut i: usize = 0;
        while i < n
            invariant
                n == self.capabilities@.len(),
                i <= n,
                caps@ == self.capabilities@.take(i as int),
            decreases n - i,
        {
            let c = &self.capabilities[i];
            let copy = CapabilityDescription {
                capability: c.capability.clone(),
                description: match &c.description {
                    Some(d) => Some(d.clone()),
                    None => None,
                },
            };
            caps.push(copy);
            assert(caps@ =~= self.capabilities@.take(i + 1));
            i = i + 1;
        }
        assert(self.capabilities@.take(n as int) =~= self.capabilities@);
        UnitDescriptor { unit_id: self.unit_id.clone(), capabilities: caps, labels: self.labels.clone() }
    }

    /// Returns true when the descriptor advertises every required capability.
    pub fn advertises_all(&self, required: &[String]) -> (b: bool)
        ensures
            b == (forall|i: int| 0 <= i < required@.len()
                ==> #[trigger] self.advertised().contains(required@[i]@)),
    {
        let n = required.len();
        let mut i: usize = 0;
        while i < n
            invariant
                n == required@.len(),
                i <= n,
                forall|j: int| 0 <= j < i ==> #[trigger] self.advertised().contains(required@[j]@),
            decreases n - i,
        {
            if !self.advertises(&required[i]) {
                return false;
            }
            i = i + 1;
        }
        true
    }

    /// Returns true when the descriptor advertises the capability.
    pub fn advertises(&self, capability: &String) -> (b: bool)
        ensures
            b == self.advertised().contains(capability@),
    {
        let n = self.capabilities.len();
        let mut i: usize = 0;
        while i < n
            invariant
                n == self.capabilities@.len(),
                i <= n,
                forall|j: int| 0 <= j < i ==> self.advertised()[j] != capability@,
            decreases n - i,
        {
            if self.capabilities[i].capability == *capability {
                assert(self.advertised()[i as int] == capability@);
                return true;
            }
            i = i + 1;
        }
        false
    }
}

/// Framework-level unit command.
#[derive(Debug, Clone, PartialEq, Eq)]
pub enum UnitCommandKind {
    Drain,
    Resume,
    Stop,
    CaptureSnapshot,
    Custom(String),
}

/// Acknowledgement for commands and control messages.
#[derive(Debug, PartialEq, Eq)]
pub struct Acknowledgement {
    pub metadata: ProtocolMetadata,
    pub accepted: bool,
    pub reason: Option<String>,
}

impl Acknowledgement {
    /// Creates an accepted acknowledgement.
    pub fn accepted(metadata: ProtocolMetadata) -> (r: Self)
        ensures
            r.metadata == metadata,
            r.accepted,
            r.reason is None,
    {
        Acknowledgement { metadata, accepted: true, reason: None }
    }

    /// Creates a rejected acknowledgement.
    pub fn rejected(metadata: ProtocolMetadata, reason: String) -> (r: Self)
        ensures
            r.metadata == metadata,
            !r.accepted,
            r.reason == Some(reason),
    {
        Acknowledgement { metadata, accepted: false, reason: Some(reason) }
    }
}

/// Classification of a completed work attempt from the framework perspective.
#[derive(Debug, Clone, Copy, PartialEq, Eq, Structural)]
pub enum WorkDisposition {
    Completed,
    ApplicationRejected,
    ApplicationFailed,
    TimedOut,
    Cancelled,
    Backpressured,
    FrameworkFailed,
}

/// The disposition a failed work attempt is classified as.
pub open spec fn disposition_of<E>(error: WorkError<E>) -> WorkDisposition {
    match error {
        WorkError::Application(ApplicationFailure::Rejected(_)) => WorkDisposition::ApplicationRejected,
        WorkError::Application(ApplicationFailure::Failed(_)) => WorkDisposition::ApplicationFailed,
        WorkError::Framework(FrameworkError::Timeout { .. }) => WorkDisposition::TimedOut,
        WorkError::Framework(FrameworkError::Cancelled) => WorkDisposition::Cancelled,
        WorkError::Framework(FrameworkError::Backpressured { .. }) => WorkDisposition::Backpressured,
        WorkError::Framework(_) => WorkDisposition::FrameworkFailed,
    }
}

impl WorkDisposition {
    /// Classifies a failed work attempt.
    pub fn from_error<E>(error: &WorkError<E>) -> (r: Self)
        ensures
            r == disposition_of(*error),
    {
        match error {
            WorkError::Application(ApplicationFailure::Rejected(_)) => WorkDisposition::ApplicationRejected,
            WorkError::Application(ApplicationFailure::Failed(_)) => WorkDisposition::ApplicationFailed,
            WorkError::Framework(FrameworkError::Timeout { .. }) => WorkDisposition::TimedOut,
            WorkError::Framework(FrameworkError::Cancelled) => WorkDisposition::Cancelled,
            WorkError::Framework(FrameworkError::Backpressured { .. }) => WorkDisposition::Backpressured,
            WorkError::Framework(_) => WorkDisposition::FrameworkFailed,
        }
    }
}

/// Scope of an operational audit request.
#[derive(Debug, Clone, PartialEq, Eq)]
pub enum AuditScope<U> {
    AllUnits,
    Units(Vec<U>),
    Custom(String),
}

} // verus!

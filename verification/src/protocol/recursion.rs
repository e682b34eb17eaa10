//! Typed operational-recursion records: the boundary between a parent runtime and
//! its child runtimes.
//!
//! Instants are epoch milliseconds.

use vstd::prelude::*;

use crate::dup::Duplicate;
use crate::kernel::system1::{ResourceShortageModel, ResourceShortageRequest};
use crate::support::fresh_uuid;
use crate::text::concat2;

use super::address::{RecursionPath, RuntimeId, SubsystemRole, VsmAddress};
use super::algedonic::{AlgedonicSignalModel, AlgedonicSignalRecord};
use super::system1::{CapacitySnapshot, UnitDescriptor, UnitDescriptorModel};
use super::system3::{OperationalDirective, OperationalDirectiveModel, ResourceRequest, ResourceRequestModel};
use super::system5::{dup_opt, opt_view};

use crate::protocol::envelope::{child_of, fresh_metadata, ProtocolMetadata, ProtocolMetadataModel};
verus! {

/// Decision made by a recursion transducer at the parent/child boundary.
#[derive(Debug, PartialEq, Eq)]
pub enum RecursionBoundaryDecision {
    Allow,
    Deny { reason: String },
}

impl RecursionBoundaryDecision {
    /// Allows the operation.
    pub fn allow() -> (r: Self)
        ensures
            r == RecursionBoundaryDecision::Allow,
    {
        RecursionBoundaryDecision::Allow
    }

    /// Denies the operation with a reason.
    pub fn deny(reason: String) -> (r: Self)
        ensures
            r == (RecursionBoundaryDecision::Deny { reason }),
    {
        RecursionBoundaryDecision::Deny { reason }
    }

    /// Returns true when the operation is allowed.
    pub fn is_allowed(&self) -> (b: bool)
        ensures
            b == (*self is Allow),
    {
        match self {
            RecursionBoundaryDecision::Allow => true,
            RecursionBoundaryDecision::Deny { .. } => false,
        }
    }

    /// Copies the decision.
    pub fn copy(&self) -> (r: Self)
        ensures
            r == *self,
    {
        match self {
            RecursionBoundaryDecision::Allow => RecursionBoundaryDecision::Allow,
            RecursionBoundaryDecision::Deny { reason } => RecursionBoundaryDecision::Deny { reason: reason.clone() },
        }
    }
}

/// Lifecycle status of a child runtime.
#[derive(Debug, Clone, Copy, PartialEq, Eq, Structural)]
pub enum ChildRuntimeStatus {
    Starting,
    Running,
    Draining,
    Stopped,
}

/// Static description of a child runtime.
pub struct ChildRuntimeDescriptor {
    pub metadata: ProtocolMetadata,
    pub child_id: String,
    pub runtime_id: RuntimeId,
    pub recursion_path: RecursionPath,
    pub unit_descriptor: UnitDescriptor,
    pub capacity: CapacitySnapshot,
    pub registered_at: i64,
}

/// The plain-value view of `ChildRuntimeDescriptor`.
pub struct ChildRuntimeDescriptorModel {
    pub metadata: ProtocolMetadataModel,
    pub child_id: Seq<char>,
    pub runtime_id: Seq<char>,
    pub recursion_path: Seq<Seq<char>>,
    pub unit_descriptor: UnitDescriptorModel,
    pub capacity: CapacitySnapshot,
    pub registered_at: i64,
}

impl View for ChildRuntimeDescriptor {
    type V = ChildRuntimeDescriptorModel;

    open spec fn view(&self) -> ChildRuntimeDescriptorModel {
        ChildRuntimeDescriptorModel {
            metadata: self.metadata@,
            child_id: self.child_id@,
            runtime_id: self.runtime_id@,
            recursion_path: self.recursion_path@,
            unit_descriptor: self.unit_descriptor@,
            capacity: self.capacity,
            registered_at: self.registered_at,
        }
    }
}

impl Duplicate for ChildRuntimeDescriptor {
    fn duplicate(&self) -> (r: Self) {
        ChildRuntimeDescriptor {
            metadata: self.metadata.duplicate(),
            child_id: self.child_id.clone(),
            runtime_id: self.runtime_id.clone(),
            recursion_path: self.recursion_path.clone(),
            unit_descriptor: self.unit_descriptor.duplicate(),
            capacity: self.capacity,
            registered_at: self.registered_at,
        }
    }
}

impl ChildRuntimeDescriptor {
    /// Creates a child runtime descriptor registered at `now`.
    pub fn new(
        child_id: String,
        runtime_id: RuntimeId,
        recursion_path: RecursionPath,
        unit_descriptor: UnitDescriptor,
        capacity: CapacitySnapshot,
        now: i64,
    ) -> (r: Self)
        ensures
            r.child_id == child_id,
            r.runtime_id == runtime_id,
            r.recursion_path == recursion_path,
            r.unit_descriptor == unit_descriptor,
            r.capacity == capacity,
            r.registered_at == now,
            fresh_metadata(r.metadata@),
    {
        ChildRuntimeDescriptor {
            metadata: ProtocolMetadata::new(),
            child_id,
            runtime_id,
            recursion_path,
            unit_descriptor,
            capacity,
            registered_at: now,
        }
    }
}

/// A child runtime as the parent reports it.
pub struct ChildRuntimeSnapshot {
    pub descriptor: ChildRuntimeDescriptor,
    pub status: ChildRuntimeStatus,
    pub registered_units: usize,
}

/// The plain-value view of `ChildRuntimeSnapshot`.
pub struct ChildRuntimeSnapshotModel {
    pub descriptor: ChildRuntimeDescriptorModel,
    pub status: ChildRuntimeStatus,
    pub registered_units: usize,
}

impl View for ChildRuntimeSnapshot {
    type V = ChildRuntimeSnapshotModel;

    open spec fn view(&self) -> ChildRuntimeSnapshotModel {
        ChildRuntimeSnapshotModel {
            descriptor: self.descriptor@,
            status: self.status,
            registered_units: self.registered_units,
        }
    }
}

impl Duplicate for ChildRuntimeSnapshot {
    fn duplicate(&self) -> (r: Self) {
        ChildRuntimeSnapshot {
            descriptor: self.descriptor.duplicate(),
            status: self.status,
            registered_units: self.registered_units,
        }
    }
}

/// A child's resource shortage as translated for the parent.
pub struct RecursionResourceEscalation {
    pub metadata: ProtocolMetadata,
    pub escalation_id: String,
    pub child_id: String,
    pub shortage: ResourceShortageRequest,
    pub parent_request: ResourceRequest,
    pub decision: RecursionBoundaryDecision,
    pub escalated_at: i64,
}

/// The plain-value view of `RecursionResourceEscalation`.
pub struct RecursionResourceEscalationModel {
    pub metadata: ProtocolMetadataModel,
    pub escalation_id: Seq<char>,
    pub child_id: Seq<char>,
    pub shortage: ResourceShortageModel,
    pub parent_request: ResourceRequestModel,
    pub decision: RecursionBoundaryDecision,
    pub escalated_at: i64,
}

impl View for RecursionResourceEscalation {
    type V = RecursionResourceEscalationModel;

    open spec fn view(&self) -> RecursionResourceEscalationModel {
        RecursionResourceEscalationModel {
            metadata: self.metadata@,
            escalation_id: self.escalation_id@,
            child_id: self.child_id@,
            shortage: self.shortage@,
            parent_request: self.parent_request@,
            decision: self.decision,
            escalated_at: self.escalated_at,
        }
    }
}

impl Duplicate for RecursionResourceEscalation {
    fn duplicate(&self) -> (r: Self) {
        RecursionResourceEscalation {
            metadata: self.metadata.duplicate(),
            escalation_id: self.escalation_id.clone(),
            child_id: self.child_id.clone(),
            shortage: self.shortage.duplicate(),
            parent_request: self.parent_request.duplicate(),
            decision: self.decision.copy(),
            escalated_at: self.escalated_at,
        }
    }
}

/// A child's algedonic signal as disclosed to the parent.
pub struct RecursionAlgedonicEscalation {
    pub metadata: ProtocolMetadata,
    pub escalation_id: String,
    pub child_id: String,
    pub signal: AlgedonicSignalRecord,
    pub decision: RecursionBoundaryDecision,
    pub escalated_at: i64,
}

/// The plain-value view of `RecursionAlgedonicEscalation`.
pub struct RecursionAlgedonicEscalationModel {
    pub metadata: ProtocolMetadataModel,
    pub escalation_id: Seq<char>,
    pub child_id: Seq<char>,
    pub signal: AlgedonicSignalModel,
    pub decision: RecursionBoundaryDecision,
    pub escalated_at: i64,
}

impl View for RecursionAlgedonicEscalation {
    type V = RecursionAlgedonicEscalationModel;

    open spec fn view(&self) -> RecursionAlgedonicEscalationModel {
        RecursionAlgedonicEscalationModel {
            metadata: self.metadata@,
            escalation_id: self.escalation_id@,
            child_id: self.child_id@,
            signal: self.signal@,
            decision: self.decision,
            escalated_at: self.escalated_at,
        }
    }
}

impl Duplicate for RecursionAlgedonicEscalation {
    fn duplicate(&self) -> (r: Self) {
        RecursionAlgedonicEscalation {
            metadata: self.metadata.duplicate(),
            escalation_id: self.escalation_id.clone(),
            child_id: self.child_id.clone(),
            signal: self.signal.duplicate(),
            decision: self.decision.copy(),
            escalated_at: self.escalated_at,
        }
    }
}

/// A parent directive and what the transducer made of it for the child.
pub struct RecursionPolicyDirective {
    pub metadata: ProtocolMetadata,
    pub directive_id: String,
    pub child_id: String,
    pub parent_directive: OperationalDirective,
    pub child_directive: Option<OperationalDirective>,
    pub decision: RecursionBoundaryDecision,
    pub transduced_at: i64,
}

/// The plain-value view of `RecursionPolicyDirective`.
pub struct RecursionPolicyDirectiveModel {
    pub metadata: ProtocolMetadataModel,
    pub directive_id: Seq<char>,
    pub child_id: Seq<char>,
    pub parent_directive: OperationalDirectiveModel,
    pub child_directive: Option<OperationalDirectiveModel>,
    pub decision: RecursionBoundaryDecision,
    pub transduced_at: i64,
}

impl View for RecursionPolicyDirective {
    type V = RecursionPolicyDirectiveModel;

    open spec fn view(&self) -> RecursionPolicyDirectiveModel {
        RecursionPolicyDirectiveModel {
            metadata: self.metadata@,
            directive_id: self.directive_id@,
            child_id: self.child_id@,
            parent_directive: self.parent_directive@,
            child_directive: opt_view(self.child_directive),
            decision: self.decision,
            transduced_at: self.transduced_at,
        }
    }
}

impl Duplicate for RecursionPolicyDirective {
    fn duplicate(&self) -> (r: Self) {
        RecursionPolicyDirective {
            metadata: self.metadata.duplicate(),
            directive_id: self.directive_id.clone(),
            child_id: self.child_id.clone(),
            parent_directive: self.parent_directive.duplicate(),
            child_directive: dup_opt(&self.child_directive),
            decision: self.decision.copy(),
            transduced_at: self.transduced_at,
        }
    }
}

/// Counts of a child's intelligence cycle, as summarized for the parent.
pub struct RecursionIntelligenceSummary {
    pub metadata: ProtocolMetadata,
    pub summary_id: String,
    pub child_id: String,
    pub observation_count: usize,
    pub signal_count: usize,
    pub proposal_count: usize,
    pub summary: Option<String>,
    pub summarized_at: i64,
}

/// The plain-value view of `RecursionIntelligenceSummary`.
pub struct RecursionIntelligenceSummaryModel {
    pub metadata: ProtocolMetadataModel,
    pub summary_id: Seq<char>,
    pub child_id: Seq<char>,
    pub observation_count: usize,
    pub signal_count: usize,
    pub proposal_count: usize,
    pub summary: Option<Seq<char>>,
    pub summarized_at: i64,
}

impl View for RecursionIntelligenceSummary {
    type V = RecursionIntelligenceSummaryModel;

    open spec fn view(&self) -> RecursionIntelligenceSummaryModel {
        RecursionIntelligenceSummaryModel {
            metadata: self.metadata@,
            summary_id: self.summary_id@,
            child_id: self.child_id@,
            observation_count: self.observation_count,
            signal_count: self.signal_count,
            proposal_count: self.proposal_count,
            summary: crate::protocol::system2::opt_text(self.summary),
            summarized_at: self.summarized_at,
        }
    }
}

impl Duplicate for RecursionIntelligenceSummary {
    fn duplicate(&self) -> (r: Self) {
        RecursionIntelligenceSummary {
            metadata: self.metadata.duplicate(),
            summary_id: self.summary_id.clone(),
            child_id: self.child_id.clone(),
            observation_count: self.observation_count,
            signal_count: self.signal_count,
            proposal_count: self.proposal_count,
            summary: crate::protocol::system2::copy_opt(&self.summary),
            summarized_at: self.summarized_at,
        }
    }
}

impl RecursionIntelligenceSummary {
    /// Summarizes a child's intelligence cycle from its counts, with a generated
    /// `recursion-intelligence-` identity, caused by the cycle's metadata.
    pub fn from_counts(
        cycle_metadata: &ProtocolMetadata,
        child_id: String,
        observation_count: usize,
        signal_count: usize,
        proposal_count: usize,
        summary: Option<String>,
        now: i64,
    ) -> (r: Self)
        ensures
            r.child_id == child_id,
            r.observation_count == observation_count,
            r.signal_count == signal_count,
            r.proposal_count == proposal_count,
            r.summary == summary,
            r.summarized_at == now,
            child_of(r.metadata@, cycle_metadata@),
    {
        let id = fresh_uuid();
        RecursionIntelligenceSummary {
            metadata: cycle_metadata.child(),
            summary_id: concat2("recursion-intelligence-", id.as_str()),
            child_id,
            observation_count,
            signal_count,
            proposal_count,
            summary,
            summarized_at: now,
        }
    }
}

/// Recursion state snapshot.
pub struct RecursionSnapshot {
    pub children: Vec<ChildRuntimeSnapshot>,
    pub resource_escalations: Vec<RecursionResourceEscalation>,
    pub algedonic_escalations: Vec<RecursionAlgedonicEscalation>,
    pub policy_directives: Vec<RecursionPolicyDirective>,
    pub intelligence_summaries: Vec<RecursionIntelligenceSummary>,
    pub captured_at: i64,
}

/// Converts a child runtime destination into framework metadata.
pub fn child_destination(runtime_id: RuntimeId, recursion_path: RecursionPath, role: SubsystemRole) -> (r: VsmAddress)
    ensures
        r.runtime_id == runtime_id,
        r.recursion_path == recursion_path,
        r.role == role,
        r.entity is None,
{
    VsmAddress::new(runtime_id, recursion_path, role)
}

} // verus!

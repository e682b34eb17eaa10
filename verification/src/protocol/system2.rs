//! Typed System 2 coordination protocol records.
//!
//! Instants are epoch milliseconds.

use vstd::prelude::*;

use crate::dup::{dup_vec, view_seq, Duplicate};
use crate::support::fresh_uuid;
use crate::text::{concat2, texts};

use super::snapshot::SnapshotVersion;
use super::system1::CapacitySnapshot;

use crate::protocol::envelope::{child_of, fresh_metadata, ProtocolMetadata, ProtocolMetadataModel};
verus! {

/// Monotonic version assigned when System 2 receives a unit coordination view.
#[derive(Debug, Clone, Copy, PartialEq, Eq, PartialOrd, Ord, Hash, Structural)]
pub struct CoordinationViewVersion(u64);

impl CoordinationViewVersion {
    /// The raw number, for specifications.
    pub closed spec fn value(self) -> u64 {
        self.0
    }

    /// The version of the first view received for a unit.
    pub closed spec fn first() -> Self {
        CoordinationViewVersion(1)
    }

    /// The version after this one, saturating at `u64::MAX`.
    pub closed spec fn successor(self) -> Self {
        CoordinationViewVersion(if self.0 < u64::MAX { (self.0 + 1) as u64 } else { u64::MAX })
    }

    /// What `first` and `successor` mean in numbers.
    pub broadcast proof fn version_numbers(v: Self)
        ensures
            Self::first().value() == 1,
            #[trigger] v.successor().value() == if v.value() < u64::MAX { v.value() + 1 } else { u64::MAX as int },
    {
    }

    /// Initial version assigned to the first view received for a unit, 1.
    pub fn initial() -> (r: Self)
        ensures
            r == Self::first(),
            r.value() == 1,
    {
        CoordinationViewVersion(1)
    }

    /// Returns the next view version, saturating at `u64::MAX`.
    pub fn next(self) -> (r: Self)
        ensures
            r == self.successor(),
            r.value() == if self.value() < u64::MAX { self.value() + 1 } else { u64::MAX as int },
    {
        CoordinationViewVersion(self.0.saturating_add(1))
    }

    /// Returns the raw version number.
    pub fn get(self) -> (r: u64)
        ensures
            r == self.value(),
    {
        self.0
    }
}

/// A unit's coordination view: what it can do and how loaded it is.
#[derive(Debug)]
pub struct CoordinationView {
    pub metadata: ProtocolMetadata,
    pub unit_id: String,
    pub capabilities: Vec<String>,
    pub capacity: CapacitySnapshot,
    pub snapshot_version: Option<SnapshotVersion>,
}

/// The plain-value view of `CoordinationView`.
pub struct CoordinationViewModel {
    pub metadata: ProtocolMetadataModel,
    pub unit_id: Seq<char>,
    pub capabilities: Seq<Seq<char>>,
    pub capacity: CapacitySnapshot,
    pub snapshot_version: Option<SnapshotVersion>,
}

impl View for CoordinationView {
    type V = CoordinationViewModel;

    open spec fn view(&self) -> CoordinationViewModel {
        CoordinationViewModel {
            metadata: self.metadata@,
            unit_id: self.unit_id@,
            capabilities: texts(self.capabilities@),
            capacity: self.capacity,
            snapshot_version: self.snapshot_version,
        }
    }
}

impl Duplicate for CoordinationView {
    fn duplicate(&self) -> (r: Self) {
        let caps = self.capabilities.clone();
        assert(texts(caps@) =~= texts(self.capabilities@));
        CoordinationView {
            metadata: self.metadata.duplicate(),
            unit_id: self.unit_id.clone(),
            capabilities: caps,
            capacity: self.capacity,
            snapshot_version: self.snapshot_version,
        }
    }
}

/// System 2's stored view plus freshness metadata.
#[derive(Debug)]
pub struct CoordinationViewRecord {
    pub view: CoordinationView,
    pub version: CoordinationViewVersion,
    pub received_at: i64,
}

/// The plain-value view of `CoordinationViewRecord`.
pub struct CoordinationViewRecordModel {
    pub view: CoordinationViewModel,
    pub version: CoordinationViewVersion,
    pub received_at: i64,
}

impl View for CoordinationViewRecord {
    type V = CoordinationViewRecordModel;

    open spec fn view(&self) -> CoordinationViewRecordModel {
        CoordinationViewRecordModel { view: self.view@, version: self.version, received_at: self.received_at }
    }
}

impl Duplicate for CoordinationViewRecord {
    fn duplicate(&self) -> (r: Self) {
        CoordinationViewRecord { view: self.view.duplicate(), version: self.version, received_at: self.received_at }
    }
}

/// Severity assigned by coordination policy to a conflict.
#[derive(Debug, Clone, Copy, PartialEq, Eq, Structural)]
pub enum CoordinationSeverity {
    Info,
    Low,
    Medium,
    High,
    Critical,
}

/// Framework-owned conflict category.
#[derive(Debug, PartialEq, Eq)]
pub enum CoordinationConflictKind {
    Oscillation,
    Dependency,
    CapabilityOverlap,
    CapacityPressure,
    StaleView,
    Custom(String),
}

impl Clone for CoordinationConflictKind {
    fn clone(&self) -> (r: Self)
        ensures
            r == *self,
    {
        match self {
            CoordinationConflictKind::Oscillation => CoordinationConflictKind::Oscillation,
            CoordinationConflictKind::Dependency => CoordinationConflictKind::Dependency,
            CoordinationConflictKind::CapabilityOverlap => CoordinationConflictKind::CapabilityOverlap,
            CoordinationConflictKind::CapacityPressure => CoordinationConflictKind::CapacityPressure,
            CoordinationConflictKind::StaleView => CoordinationConflictKind::StaleView,
            CoordinationConflictKind::Custom(s) => CoordinationConflictKind::Custom(s.clone()),
        }
    }
}

/// Conflict detected across one or more coordination views.
#[derive(Debug)]
pub struct CoordinationConflict {
    pub metadata: ProtocolMetadata,
    pub conflict_id: String,
    pub kind: CoordinationConflictKind,
    pub affected_units: Vec<String>,
    pub severity: CoordinationSeverity,
    pub summary: String,
    pub detected_at: i64,
}

/// The plain-value view of `CoordinationConflict`.
pub struct CoordinationConflictModel {
    pub metadata: ProtocolMetadataModel,
    pub conflict_id: Seq<char>,
    pub kind: CoordinationConflictKind,
    pub affected_units: Seq<Seq<char>>,
    pub severity: CoordinationSeverity,
    pub summary: Seq<char>,
    pub detected_at: i64,
}

impl View for CoordinationConflict {
    type V = CoordinationConflictModel;

    open spec fn view(&self) -> CoordinationConflictModel {
        CoordinationConflictModel {
            metadata: self.metadata@,
            conflict_id: self.conflict_id@,
            kind: self.kind,
            affected_units: texts(self.affected_units@),
            severity: self.severity,
            summary: self.summary@,
            detected_at: self.detected_at,
        }
    }
}

impl Duplicate for CoordinationConflict {
    fn duplicate(&self) -> (r: Self) {
        let units = self.affected_units.clone();
        assert(texts(units@) =~= texts(self.affected_units@));
        CoordinationConflict {
            metadata: self.metadata.duplicate(),
            conflict_id: self.conflict_id.clone(),
            kind: self.kind.clone(),
            affected_units: units,
            severity: self.severity,
            summary: self.summary.clone(),
            detected_at: self.detected_at,
        }
    }
}

impl CoordinationConflict {
    /// Creates a conflict with a generated `conflict-` identity detected at `now`.
    pub fn new(
        kind: CoordinationConflictKind,
        affected_units: Vec<String>,
        severity: CoordinationSeverity,
        summary: String,
        now: i64,
    ) -> (r: Self)
        ensures
            fresh_metadata(r.metadata@),
            r.kind == kind,
            r.affected_units@ == affected_units@,
            r.severity == severity,
            r.summary == summary,
            r.detected_at == now,
    {
        let id = fresh_uuid();
        CoordinationConflict {
            metadata: ProtocolMetadata::new(),
            conflict_id: concat2("conflict-", id.as_str()),
            kind,
            affected_units,
            severity,
            summary,
            detected_at: now,
        }
    }
}

/// Framework-owned intervention category.
#[derive(Debug, PartialEq, Eq)]
pub enum CoordinationInterventionKind {
    Recommendation,
    Constraint,
    Throttle,
    Drain,
    Resume,
    Custom(String),
}

impl Clone for CoordinationInterventionKind {
    fn clone(&self) -> (r: Self)
        ensures
            r == *self,
    {
        match self {
            CoordinationInterventionKind::Recommendation => CoordinationInterventionKind::Recommendation,
            CoordinationInterventionKind::Constraint => CoordinationInterventionKind::Constraint,
            CoordinationInterventionKind::Throttle => CoordinationInterventionKind::Throttle,
            CoordinationInterventionKind::Drain => CoordinationInterventionKind::Drain,
            CoordinationInterventionKind::Resume => CoordinationInterventionKind::Resume,
            CoordinationInterventionKind::Custom(s) => CoordinationInterventionKind::Custom(s.clone()),
        }
    }
}

/// Recommendation or constraint sent by System 2 to affected units.
#[derive(Debug)]
pub struct CoordinationIntervention {
    pub metadata: ProtocolMetadata,
    pub intervention_id: String,
    pub conflict_id: Option<String>,
    pub kind: CoordinationInterventionKind,
    pub target_units: Vec<String>,
    pub summary: String,
    pub issued_at: i64,
    pub expires_at: Option<i64>,
    pub requires_ack: bool,
}

/// The plain-value view of `CoordinationIntervention`.
pub struct CoordinationInterventionModel {
    pub metadata: ProtocolMetadataModel,
    pub intervention_id: Seq<char>,
    pub conflict_id: Option<Seq<char>>,
    pub kind: CoordinationInterventionKind,
    pub target_units: Seq<Seq<char>>,
    pub summary: Seq<char>,
    pub issued_at: i64,
    pub expires_at: Option<i64>,
    pub requires_ack: bool,
}

/// The text of an optional string.
pub open spec fn opt_text(s: Option<String>) -> Option<Seq<char>> {
    match s {
        Some(x) => Some(x@),
        None => None,
    }
}

/// Copies an optional string.
pub fn copy_opt(s: &Option<String>) -> (r: Option<String>)
    ensures
        r == *s,
{
    match s {
        Some(x) => Some(x.clone()),
        None => None,
    }
}

impl View for CoordinationIntervention {
    type V = CoordinationInterventionModel;

    open spec fn view(&self) -> CoordinationInterventionModel {
        CoordinationInterventionModel {
            metadata: self.metadata@,
            intervention_id: self.intervention_id@,
            conflict_id: opt_text(self.conflict_id),
            kind: self.kind,
            target_units: texts(self.target_units@),
            summary: self.summary@,
            issued_at: self.issued_at,
            expires_at: self.expires_at,
            requires_ack: self.requires_ack,
        }
    }
}

impl Duplicate for CoordinationIntervention {
    fn duplicate(&self) -> (r: Self) {
        let targets = self.target_units.clone();
        assert(texts(targets@) =~= texts(self.target_units@));
        CoordinationIntervention {
            metadata: self.metadata.duplicate(),
            intervention_id: self.intervention_id.clone(),
            conflict_id: copy_opt(&self.conflict_id),
            kind: self.kind.clone(),
            target_units: targets,
            summary: self.summary.clone(),
            issued_at: self.issued_at,
            expires_at: self.expires_at,
            requires_ack: self.requires_ack,
        }
    }
}

impl CoordinationIntervention {
    /// Creates an intervention with a generated `intervention-` identity that requires acknowledgement.
    pub fn new(kind: CoordinationInterventionKind, target_units: Vec<String>, summary: String, now: i64) -> (r: Self)
        ensures
            fresh_metadata(r.metadata@),
            r.conflict_id is None,
            r.kind == kind,
            r.target_units@ == target_units@,
            r.summary == summary,
            r.issued_at == now,
            r.expires_at is None,
            r.requires_ack,
    {
        let id = fresh_uuid();
        CoordinationIntervention {
            metadata: ProtocolMetadata::new(),
            intervention_id: concat2("intervention-", id.as_str()),
            conflict_id: None,
            kind,
            target_units,
            summary,
            issued_at: now,
            expires_at: None,
            requires_ack: true,
        }
    }

    /// Associates this intervention with a detected conflict.
    pub fn for_conflict(self, conflict_id: String) -> (r: Self)
        ensures
            r@ == (CoordinationInterventionModel { conflict_id: Some(conflict_id@), ..self@ }),
    {
        CoordinationIntervention { conflict_id: Some(conflict_id), ..self }
    }

    /// Marks whether target units must acknowledge this intervention.
    pub fn with_required_ack(self, requires_ack: bool) -> (r: Self)
        ensures
            r@ == (CoordinationInterventionModel { requires_ack, ..self@ }),
    {
        CoordinationIntervention { requires_ack, ..self }
    }
}

/// Status returned by a unit after receiving a System 2 intervention.
#[derive(Debug, Clone, Copy, PartialEq, Eq, Structural)]
pub enum CoordinationAckStatus {
    Accepted,
    Rejected,
    Applied,
    Failed,
}

impl CoordinationAckStatus {
    /// Accepted or applied.
    pub open spec fn succeeded(self) -> bool {
        self == CoordinationAckStatus::Accepted || self == CoordinationAckStatus::Applied
    }

    /// Returns true when the unit accepted or applied the intervention.
    pub fn is_success(self) -> (b: bool)
        ensures
            b == self.succeeded(),
    {
        match self {
            CoordinationAckStatus::Accepted | CoordinationAckStatus::Applied => true,
            _ => false,
        }
    }
}

/// Lower-case status word used when an acknowledgement carries no reason.
pub open spec fn ack_status_word(status: CoordinationAckStatus) -> Seq<char> {
    match status {
        CoordinationAckStatus::Accepted => "accepted"@,
        CoordinationAckStatus::Rejected => "rejected"@,
        CoordinationAckStatus::Applied => "applied"@,
        CoordinationAckStatus::Failed => "failed"@,
    }
}

/// Returns the lower-case word for an acknowledgement status.
pub fn status_reason(status: CoordinationAckStatus) -> (r: String)
    ensures
        r@ == ack_status_word(status),
{
    match status {
        CoordinationAckStatus::Accepted => "accepted".to_owned(),
        CoordinationAckStatus::Rejected => "rejected".to_owned(),
        CoordinationAckStatus::Applied => "applied".to_owned(),
        CoordinationAckStatus::Failed => "failed".to_owned(),
    }
}

/// Unit acknowledgement for an intervention.
#[derive(Debug)]
pub struct CoordinationAcknowledgement {
    pub metadata: ProtocolMetadata,
    pub intervention_id: String,
    pub unit_id: String,
    pub status: CoordinationAckStatus,
    pub reason: Option<String>,
    pub observed_at: i64,
}

/// The plain-value view of `CoordinationAcknowledgement`.
pub struct CoordinationAcknowledgementModel {
    pub metadata: ProtocolMetadataModel,
    pub intervention_id: Seq<char>,
    pub unit_id: Seq<char>,
    pub status: CoordinationAckStatus,
    pub reason: Option<Seq<char>>,
    pub observed_at: i64,
}

impl View for CoordinationAcknowledgement {
    type V = CoordinationAcknowledgementModel;

    open spec fn view(&self) -> CoordinationAcknowledgementModel {
        CoordinationAcknowledgementModel {
            metadata: self.metadata@,
            intervention_id: self.intervention_id@,
            unit_id: self.unit_id@,
            status: self.status,
            reason: opt_text(self.reason),
            observed_at: self.observed_at,
        }
    }
}

impl Duplicate for CoordinationAcknowledgement {
    fn duplicate(&self) -> (r: Self) {
        CoordinationAcknowledgement {
            metadata: self.metadata.duplicate(),
            intervention_id: self.intervention_id.clone(),
            unit_id: self.unit_id.clone(),
            status: self.status,
            reason: copy_opt(&self.reason),
            observed_at: self.observed_at,
        }
    }
}

impl CoordinationAcknowledgement {
    /// Creates an acknowledgement for an intervention.
    pub fn new(
        intervention: &CoordinationIntervention,
        unit_id: String,
        status: CoordinationAckStatus,
        reason: Option<String>,
        now: i64,
    ) -> (r: Self)
        ensures
            child_of(r.metadata@, intervention.metadata@),
            r.intervention_id@ == intervention.intervention_id@,
            r.unit_id == unit_id,
            r.status == status,
            r.reason == reason,
            r.observed_at == now,
    {
        CoordinationAcknowledgement {
            metadata: intervention.metadata.child(),
            intervention_id: intervention.intervention_id.clone(),
            unit_id,
            status,
            reason,
            observed_at: now,
        }
    }

    /// Creates a failed acknowledgement carrying a reason.
    pub fn failed(intervention: &CoordinationIntervention, unit_id: String, reason: String, now: i64) -> (r: Self)
        ensures
            child_of(r.metadata@, intervention.metadata@),
            r.intervention_id@ == intervention.intervention_id@,
            r.unit_id == unit_id,
            r.status == CoordinationAckStatus::Failed,
            r.reason == Some(reason),
            r.observed_at == now,
    {
        CoordinationAcknowledgement::new(intervention, unit_id, CoordinationAckStatus::Failed, Some(reason), now)
    }
}

/// Escalation record for unresolved coordination conflicts.
#[derive(Debug)]
pub struct CoordinationEscalation {
    pub metadata: ProtocolMetadata,
    pub conflict: CoordinationConflict,
    pub intervention_id: String,
    pub reason: String,
    pub escalated_at: i64,
}

/// The plain-value view of `CoordinationEscalation`.
pub struct CoordinationEscalationModel {
    pub metadata: ProtocolMetadataModel,
    pub conflict: CoordinationConflictModel,
    pub intervention_id: Seq<char>,
    pub reason: Seq<char>,
    pub escalated_at: i64,
}

impl View for CoordinationEscalation {
    type V = CoordinationEscalationModel;

    open spec fn view(&self) -> CoordinationEscalationModel {
        CoordinationEscalationModel {
            metadata: self.metadata@,
            conflict: self.conflict@,
            intervention_id: self.intervention_id@,
            reason: self.reason@,
            escalated_at: self.escalated_at,
        }
    }
}

impl Duplicate for CoordinationEscalation {
    fn duplicate(&self) -> (r: Self) {
        CoordinationEscalation {
            metadata: self.metadata.duplicate(),
            conflict: self.conflict.duplicate(),
            intervention_id: self.intervention_id.clone(),
            reason: self.reason.clone(),
            escalated_at: self.escalated_at,
        }
    }
}

/// One completed System 2 policy cycle.
pub struct CoordinationCycle {
    pub metadata: ProtocolMetadata,
    pub views: Vec<CoordinationViewRecord>,
    pub conflicts: Vec<CoordinationConflict>,
    pub interventions: Vec<CoordinationIntervention>,
    pub acknowledgements: Vec<CoordinationAcknowledgement>,
    pub escalations: Vec<CoordinationEscalation>,
}

/// Point-in-time snapshot of the System 2 coordination state.
pub struct System2Snapshot {
    pub views: Vec<CoordinationViewRecord>,
    pub pending_interventions: Vec<CoordinationIntervention>,
    pub acknowledgements: Vec<CoordinationAcknowledgement>,
    pub escalations: Vec<CoordinationEscalation>,
    pub last_cycle_at: Option<i64>,
}

} // verus!

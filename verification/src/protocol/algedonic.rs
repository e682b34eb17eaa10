//! Typed algedonic signal lifecycle records.
//!
//! Instants are epoch milliseconds. A signal's priority is kept in thousandths
//! (0 to 1000) so that it can be compared exactly.

use std::collections::BTreeMap;

use vstd::prelude::*;

use crate::dup::{dup_vec, view_seq, Duplicate};
use crate::support::fresh_uuid;
use crate::text::concat2;

use super::address::{opt_address, VsmAddress, VsmAddressModel};
use super::envelope::copy_address;
use super::system2::{copy_opt, opt_text};
use super::system5::{dup_opt, opt_view, CrisisResponse, CrisisResponseModel};

use crate::protocol::envelope::{child_of, fresh_metadata, ProtocolMetadata, ProtocolMetadataModel};
verus! {

/// Kind of algedonic signal.
#[derive(Debug, Clone, Copy, PartialEq, Eq, Structural)]
pub enum AlgedonicSignalKind {
    Pain,
    Pleasure,
    Anomaly,
    Opportunity,
    Emergency,
}

/// Severity of an algedonic signal.
#[derive(Debug, Clone, Copy, PartialEq, Eq, PartialOrd, Ord, Structural)]
pub enum AlgedonicSeverity {
    Low,
    Medium,
    High,
    Critical,
}

/// The default priority of a severity, in thousandths.
pub open spec fn severity_score(severity: AlgedonicSeverity) -> u32 {
    match severity {
        AlgedonicSeverity::Low => 250,
        AlgedonicSeverity::Medium => 500,
        AlgedonicSeverity::High => 750,
        AlgedonicSeverity::Critical => 1000,
    }
}

impl AlgedonicSeverity {
    /// Returns the default priority of this severity in thousandths: a quarter, a half,
    /// three quarters or all of the scale.
    pub fn score_milli(self) -> (r: u32)
        ensures
            r == severity_score(self),
    {
        match self {
            AlgedonicSeverity::Low => 250,
            AlgedonicSeverity::Medium => 500,
            AlgedonicSeverity::High => 750,
            AlgedonicSeverity::Critical => 1000,
        }
    }
}

/// Severity published to alert sinks.
#[derive(Debug, Clone, Copy, PartialEq, Eq, Structural)]
pub enum AlertSeverity {
    Low,
    Medium,
    High,
    Critical,
}

/// Lifecycle of an algedonic signal.
#[derive(Debug, Clone, Copy, PartialEq, Eq, Structural)]
pub enum AlgedonicLifecycleStatus {
    Proposed,
    Classified,
    Dispatched,
    Acknowledged,
    ActedUpon,
    Resolved,
    Escalated,
    Expired,
}

/// An algedonic signal and where it is in its lifecycle.
pub struct AlgedonicSignalRecord {
    pub metadata: ProtocolMetadata,
    pub signal_id: String,
    pub kind: AlgedonicSignalKind,
    pub severity: AlgedonicSeverity,
    pub priority_milli: u32,
    pub source: Option<VsmAddress>,
    pub source_label: Option<String>,
    pub unit_id: Option<String>,
    pub reason: String,
    pub details: BTreeMap<String, String>,
    pub status: AlgedonicLifecycleStatus,
    pub proposed_at: i64,
    pub acknowledgement_deadline: Option<i64>,
    pub dedupe_key: Option<String>,
}

/// The plain-value view of `AlgedonicSignal`.
pub struct AlgedonicSignalModel {
    pub metadata: ProtocolMetadataModel,
    pub signal_id: Seq<char>,
    pub kind: AlgedonicSignalKind,
    pub severity: AlgedonicSeverity,
    pub priority_milli: u32,
    pub source: Option<VsmAddressModel>,
    pub source_label: Option<Seq<char>>,
    pub unit_id: Option<Seq<char>>,
    pub reason: Seq<char>,
    pub details: Map<String, String>,
    pub status: AlgedonicLifecycleStatus,
    pub proposed_at: i64,
    pub acknowledgement_deadline: Option<i64>,
    pub dedupe_key: Option<Seq<char>>,
}

impl View for AlgedonicSignalRecord {
    type V = AlgedonicSignalModel;

    open spec fn view(&self) -> AlgedonicSignalModel {
        AlgedonicSignalModel {
            metadata: self.metadata@,
            signal_id: self.signal_id@,
            kind: self.kind,
            severity: self.severity,
            priority_milli: self.priority_milli,
            source: opt_address(self.source),
            source_label: opt_text(self.source_label),
            unit_id: opt_text(self.unit_id),
            reason: self.reason@,
            details: self.details@,
            status: self.status,
            proposed_at: self.proposed_at,
            acknowledgement_deadline: self.acknowledgement_deadline,
            dedupe_key: opt_text(self.dedupe_key),
        }
    }
}

impl Duplicate for AlgedonicSignalRecord {
    fn duplicate(&self) -> (r: Self) {
        AlgedonicSignalRecord {
            metadata: self.metadata.duplicate(),
            signal_id: self.signal_id.clone(),
            kind: self.kind,
            severity: self.severity,
            priority_milli: self.priority_milli,
            source: copy_address(&self.source),
            source_label: copy_opt(&self.source_label),
            unit_id: copy_opt(&self.unit_id),
            reason: self.reason.clone(),
            details: self.details.clone(),
            status: self.status,
            proposed_at: self.proposed_at,
            acknowledgement_deadline: self.acknowledgement_deadline,
            dedupe_key: copy_opt(&self.dedupe_key),
        }
    }
}

/// A signal needs System 5: it is high or critical, or its priority is at least three quarters.
pub open spec fn needs_system5(s: AlgedonicSignalModel) -> bool {
    s.severity == AlgedonicSeverity::High || s.severity == AlgedonicSeverity::Critical || s.priority_milli >= 750
}

/// The severity's rank, lowest first.
pub open spec fn severity_rank(severity: AlgedonicSeverity) -> int {
    match severity {
        AlgedonicSeverity::Low => 0,
        AlgedonicSeverity::Medium => 1,
        AlgedonicSeverity::High => 2,
        AlgedonicSeverity::Critical => 3,
    }
}

/// Which signals go to System 5: every high or critical signal, and a low or medium
/// signal exactly when its priority reaches three quarters of the scale. A signal at
/// least as severe and at least as urgent as one that goes to System 5 goes too, and a
/// signal created with a severity's default priority goes exactly when that severity is
/// high or critical.
pub proof fn lemma_system5_dispatch_rule(s: AlgedonicSignalModel, t: AlgedonicSignalModel)
    ensures
        severity_rank(s.severity) >= 2 ==> needs_system5(s),
        severity_rank(s.severity) < 2 ==> (needs_system5(s) <==> s.priority_milli >= 750),
        severity_rank(s.severity) < 2 && s.priority_milli < 750 ==> !needs_system5(s),
        needs_system5(s) && severity_rank(t.severity) >= severity_rank(s.severity) && t.priority_milli
            >= s.priority_milli ==> needs_system5(t),
        s.priority_milli == severity_score(s.severity) ==> (needs_system5(s) <==> severity_rank(s.severity) >= 2),
{
}

impl AlgedonicSignalRecord {
    /// Creates a proposed signal with a generated `algedonic-` identity; its priority is
    /// the severity's score.
    pub fn new(kind: AlgedonicSignalKind, severity: AlgedonicSeverity, reason: String, now: i64) -> (r: Self)
        ensures
            fresh_metadata(r.metadata@),
            r.kind == kind,
            r.severity == severity,
            r.priority_milli == severity_score(severity),
            r.source is None,
            r.source_label is None,
            r.unit_id is None,
            r.reason == reason,
            r.details@ == Map::<String, String>::empty(),
            r.status == AlgedonicLifecycleStatus::Proposed,
            r.proposed_at == now,
            r.acknowledgement_deadline is None,
            r.dedupe_key is None,
    {
        let id = fresh_uuid();
        AlgedonicSignalRecord {
            metadata: ProtocolMetadata::new(),
            signal_id: concat2("algedonic-", id.as_str()),
            kind,
            severity,
            priority_milli: severity.score_milli(),
            source: None,
            source_label: None,
            unit_id: None,
            reason,
            details: BTreeMap::new(),
            status: AlgedonicLifecycleStatus::Proposed,
            proposed_at: now,
            acknowledgement_deadline: None,
            dedupe_key: None,
        }
    }

    /// Sets the priority, in thousandths, clamped to the scale.
    pub fn with_priority(self, priority_milli: u32) -> (r: Self)
        ensures
            r@ == (AlgedonicSignalModel {
                priority_milli: if priority_milli > 1000 { 1000 } else { priority_milli },
                ..self@
            }),
    {
        let p = if priority_milli > 1000 { 1000 } else { priority_milli };
        AlgedonicSignalRecord { priority_milli: p, ..self }
    }

    /// Labels where the signal came from.
    pub fn from_source(self, source: String) -> (r: Self)
        ensures
            r@ == (AlgedonicSignalModel { source_label: Some(source@), ..self@ }),
    {
        AlgedonicSignalRecord { source_label: Some(source), ..self }
    }

    /// Associates the signal with a unit.
    pub fn from_unit(self, unit_id: String) -> (r: Self)
        ensures
            r@ == (AlgedonicSignalModel { unit_id: Some(unit_id@), ..self@ }),
    {
        AlgedonicSignalRecord { unit_id: Some(unit_id), ..self }
    }

    /// Returns true when the signal must be dispatched to System 5.
    pub fn requires_system5_dispatch(&self) -> (b: bool)
        ensures
            b == needs_system5(self@),
    {
        match self.severity {
            AlgedonicSeverity::High | AlgedonicSeverity::Critical => true,
            _ => self.priority_milli >= 750,
        }
    }
}

/// Answer to an algedonic signal.
#[derive(Debug, Clone, Copy, PartialEq, Eq, Structural)]
pub enum AlgedonicAckStatus {
    Accepted,
    Rejected,
    TimedOut,
}

/// Acknowledgement of an algedonic signal.
pub struct AlgedonicAcknowledgement {
    pub metadata: ProtocolMetadata,
    pub signal_id: String,
    pub status: AlgedonicAckStatus,
    pub acknowledged_by: Option<VsmAddress>,
    pub unit_id: Option<String>,
    pub reason: Option<String>,
    pub acknowledged_at: i64,
}

/// The plain-value view of `AlgedonicAcknowledgement`.
pub struct AlgedonicAcknowledgementModel {
    pub metadata: ProtocolMetadataModel,
    pub signal_id: Seq<char>,
    pub status: AlgedonicAckStatus,
    pub acknowledged_by: Option<VsmAddressModel>,
    pub unit_id: Option<Seq<char>>,
    pub reason: Option<Seq<char>>,
    pub acknowledged_at: i64,
}

impl View for AlgedonicAcknowledgement {
    type V = AlgedonicAcknowledgementModel;

    open spec fn view(&self) -> AlgedonicAcknowledgementModel {
        AlgedonicAcknowledgementModel {
            metadata: self.metadata@,
            signal_id: self.signal_id@,
            status: self.status,
            acknowledged_by: opt_address(self.acknowledged_by),
            unit_id: opt_text(self.unit_id),
            reason: opt_text(self.reason),
            acknowledged_at: self.acknowledged_at,
        }
    }
}

impl Duplicate for AlgedonicAcknowledgement {
    fn duplicate(&self) -> (r: Self) {
        AlgedonicAcknowledgement {
            metadata: self.metadata.duplicate(),
            signal_id: self.signal_id.clone(),
            status: self.status,
            acknowledged_by: copy_address(&self.acknowledged_by),
            unit_id: copy_opt(&self.unit_id),
            reason: copy_opt(&self.reason),
            acknowledged_at: self.acknowledged_at,
        }
    }
}

impl AlgedonicAcknowledgement {
    /// Accepts a signal.
    pub fn accepted(signal: &AlgedonicSignalRecord, now: i64) -> (r: Self)
        ensures
            child_of(r.metadata@, signal.metadata@),
            r@ == (AlgedonicAcknowledgementModel {
                metadata: r.metadata@,
                signal_id: signal.signal_id@,
                status: AlgedonicAckStatus::Accepted,
                acknowledged_by: None,
                unit_id: opt_text(signal.unit_id),
                reason: None,
                acknowledged_at: now,
            }),
    {
        AlgedonicAcknowledgement {
            metadata: signal.metadata.child(),
            signal_id: signal.signal_id.clone(),
            status: AlgedonicAckStatus::Accepted,
            acknowledged_by: None,
            unit_id: copy_opt(&signal.unit_id),
            reason: None,
            acknowledged_at: now,
        }
    }
}

/// Escalation of an algedonic signal.
pub struct AlgedonicEscalation {
    pub metadata: ProtocolMetadata,
    pub signal_id: String,
    pub target: VsmAddress,
    pub unit_id: Option<String>,
    pub reason: String,
    pub escalated_at: i64,
}

/// The plain-value view of `AlgedonicEscalation`.
pub struct AlgedonicEscalationModel {
    pub metadata: ProtocolMetadataModel,
    pub signal_id: Seq<char>,
    pub target: VsmAddressModel,
    pub unit_id: Option<Seq<char>>,
    pub reason: Seq<char>,
    pub escalated_at: i64,
}

impl View for AlgedonicEscalation {
    type V = AlgedonicEscalationModel;

    open spec fn view(&self) -> AlgedonicEscalationModel {
        AlgedonicEscalationModel {
            metadata: self.metadata@,
            signal_id: self.signal_id@,
            target: self.target@,
            unit_id: opt_text(self.unit_id),
            reason: self.reason@,
            escalated_at: self.escalated_at,
        }
    }
}

impl Duplicate for AlgedonicEscalation {
    fn duplicate(&self) -> (r: Self) {
        AlgedonicEscalation {
            metadata: self.metadata.duplicate(),
            signal_id: self.signal_id.clone(),
            target: self.target.clone(),
            unit_id: copy_opt(&self.unit_id),
            reason: self.reason.clone(),
            escalated_at: self.escalated_at,
        }
    }
}

/// Alert raised for a signal that needs System 5.
pub struct AlgedonicAlert {
    pub metadata: ProtocolMetadata,
    pub signal_id: String,
    pub severity: AlgedonicSeverity,
    pub message: String,
    pub details: BTreeMap<String, String>,
    pub raised_at: i64,
}

/// The plain-value view of `AlgedonicAlert`.
pub struct AlgedonicAlertModel {
    pub metadata: ProtocolMetadataModel,
    pub signal_id: Seq<char>,
    pub severity: AlgedonicSeverity,
    pub message: Seq<char>,
    pub details: Map<String, String>,
    pub raised_at: i64,
}

impl View for AlgedonicAlert {
    type V = AlgedonicAlertModel;

    open spec fn view(&self) -> AlgedonicAlertModel {
        AlgedonicAlertModel {
            metadata: self.metadata@,
            signal_id: self.signal_id@,
            severity: self.severity,
            message: self.message@,
            details: self.details@,
            raised_at: self.raised_at,
        }
    }
}

impl Duplicate for AlgedonicAlert {
    fn duplicate(&self) -> (r: Self) {
        AlgedonicAlert {
            metadata: self.metadata.duplicate(),
            signal_id: self.signal_id.clone(),
            severity: self.severity,
            message: self.message.clone(),
            details: self.details.clone(),
            raised_at: self.raised_at,
        }
    }
}

/// A signal with what is known about it so far.
pub struct AlgedonicCycle {
    pub metadata: ProtocolMetadata,
    pub signal: AlgedonicSignalRecord,
    pub acknowledgements: Vec<AlgedonicAcknowledgement>,
    pub escalations: Vec<AlgedonicEscalation>,
    pub crisis_response: Option<CrisisResponse>,
    pub recorded_at: i64,
}

/// Algedonic lifecycle snapshot.
pub struct AlgedonicSnapshot {
    pub signals: Vec<AlgedonicSignalRecord>,
    pub acknowledgements: Vec<AlgedonicAcknowledgement>,
    pub escalations: Vec<AlgedonicEscalation>,
    pub alerts: Vec<AlgedonicAlert>,
    pub last_signal_at: Option<i64>,
}

/// The crisis response System 5 returned for a dispatched signal.
pub struct DispatchRecord {
    pub signal_id: String,
    pub response: CrisisResponse,
}

/// The plain-value view of `DispatchRecord`.
pub struct DispatchRecordModel {
    pub signal_id: Seq<char>,
    pub response: CrisisResponseModel,
}

impl View for DispatchRecord {
    type V = DispatchRecordModel;

    open spec fn view(&self) -> DispatchRecordModel {
        DispatchRecordModel { signal_id: self.signal_id@, response: self.response@ }
    }
}

impl Duplicate for DispatchRecord {
    fn duplicate(&self) -> (r: Self) {
        DispatchRecord { signal_id: self.signal_id.clone(), response: self.response.duplicate() }
    }
}

} // verus!

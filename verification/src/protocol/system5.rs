//! Typed System 5 policy, identity, decision and crisis records.
//!
//! Instants are epoch milliseconds. Value statements and scores are weighted by
//! floating-point priorities, so they have no record here.

use vstd::prelude::*;

use crate::dup::{dup_vec, view_seq, Duplicate};
use crate::protocol::system3::copy_texts;
use crate::support::fresh_uuid;
use crate::text::{concat2, concat3, texts};

use super::address::{opt_address, VsmAddress, VsmAddressModel};
use super::envelope::{copy_address, Priority};
use super::system2::{copy_opt, opt_text};
use super::system3::{OperationalSummary, OperationalSummaryModel};
use crate::kernel::system4::{ProposalRouting, ProposalRoutingModel};

use crate::protocol::envelope::{child_metadata, child_of, fresh_metadata, ProtocolMetadata, ProtocolMetadataModel};
verus! {

/// Monotonic version of policy records.
#[derive(Debug, Clone, Copy, PartialEq, Eq, PartialOrd, Ord, Hash, Structural)]
pub struct PolicyVersion(u64);

impl PolicyVersion {
    /// The raw number, for specifications.
    pub closed spec fn value(self) -> u64 {
        self.0
    }

    /// Initial policy version, 1.
    pub fn initial() -> (r: Self)
        ensures
            r.value() == 1,
    {
        PolicyVersion(1)
    }

    /// Returns the next version, saturating at `u64::MAX`.
    pub fn next(self) -> (r: Self)
        ensures
            r.value() == if self.value() < u64::MAX { self.value() + 1 } else { u64::MAX as int },
    {
        PolicyVersion(self.0.saturating_add(1))
    }

    /// Returns the raw version number.
    pub fn get(self) -> (r: u64)
        ensures
            r == self.value(),
    {
        self.0
    }
}

/// Monotonic version of identity records.
#[derive(Debug, Clone, Copy, PartialEq, Eq, PartialOrd, Ord, Hash, Structural)]
pub struct IdentityVersion(u64);

impl IdentityVersion {
    /// The raw number, for specifications.
    pub closed spec fn value(self) -> u64 {
        self.0
    }

    /// Initial identity version, 1.
    pub fn initial() -> (r: Self)
        ensures
            r.value() == 1,
    {
        IdentityVersion(1)
    }

    /// Returns the next version, saturating at `u64::MAX`.
    pub fn next(self) -> (r: Self)
        ensures
            r.value() == if self.value() < u64::MAX { self.value() + 1 } else { u64::MAX as int },
    {
        IdentityVersion(self.0.saturating_add(1))
    }

    /// Returns the raw version number.
    pub fn get(self) -> (r: u64)
        ensures
            r == self.value(),
    {
        self.0
    }
}

/// Monotonic version of value sets.
#[derive(Debug, Clone, Copy, PartialEq, Eq, PartialOrd, Ord, Hash, Structural)]
pub struct ValuesVersion(u64);

impl ValuesVersion {
    /// The raw number, for specifications.
    pub closed spec fn value(self) -> u64 {
        self.0
    }

    /// Initial values version, 1.
    pub fn initial() -> (r: Self)
        ensures
            r.value() == 1,
    {
        ValuesVersion(1)
    }

    /// Returns the next version, saturating at `u64::MAX`.
    pub fn next(self) -> (r: Self)
        ensures
            r.value() == if self.value() < u64::MAX { self.value() + 1 } else { u64::MAX as int },
    {
        ValuesVersion(self.0.saturating_add(1))
    }

    /// Returns the raw version number.
    pub fn get(self) -> (r: u64)
        ensures
            r == self.value(),
    {
        self.0
    }
}

/// Organizational identity supplied by the identity provider.
pub struct IdentityRecord {
    pub metadata: ProtocolMetadata,
    pub identity_id: String,
    pub version: IdentityVersion,
    pub label: String,
    pub purpose: Option<String>,
    pub commitments: Vec<String>,
    pub provenance: Vec<String>,
    pub updated_at: i64,
}

/// The plain-value view of `IdentityRecord`.
pub struct IdentityRecordModel {
    pub metadata: ProtocolMetadataModel,
    pub identity_id: Seq<char>,
    pub version: IdentityVersion,
    pub label: Seq<char>,
    pub purpose: Option<Seq<char>>,
    pub commitments: Seq<Seq<char>>,
    pub provenance: Seq<Seq<char>>,
    pub updated_at: i64,
}

impl View for IdentityRecord {
    type V = IdentityRecordModel;

    open spec fn view(&self) -> IdentityRecordModel {
        IdentityRecordModel {
            metadata: self.metadata@,
            identity_id: self.identity_id@,
            version: self.version,
            label: self.label@,
            purpose: opt_text(self.purpose),
            commitments: texts(self.commitments@),
            provenance: texts(self.provenance@),
            updated_at: self.updated_at,
        }
    }
}

impl Duplicate for IdentityRecord {
    fn duplicate(&self) -> (r: Self) {
        IdentityRecord {
            metadata: self.metadata.duplicate(),
            identity_id: self.identity_id.clone(),
            version: self.version,
            label: self.label.clone(),
            purpose: copy_opt(&self.purpose),
            commitments: copy_texts(&self.commitments),
            provenance: copy_texts(&self.provenance),
            updated_at: self.updated_at,
        }
    }
}

impl IdentityRecord {
    /// Creates an identity record with a generated `identity-` identity at version 1.
    pub fn new(label: String, now: i64) -> (r: Self)
        ensures
            fresh_metadata(r.metadata@),
            r.version.value() == 1,
            r.label == label,
            r.purpose is None,
            r.commitments@.len() == 0,
            r.provenance@.len() == 0,
            r.updated_at == now,
    {
        let id = fresh_uuid();
        IdentityRecord {
            metadata: ProtocolMetadata::new(),
            identity_id: concat2("identity-", id.as_str()),
            version: IdentityVersion::initial(),
            label,
            purpose: None,
            commitments: Vec::new(),
            provenance: Vec::new(),
            updated_at: now,
        }
    }

    /// Sets the identity purpose.
    pub fn with_purpose(self, purpose: String) -> (r: Self)
        ensures
            r@ == (IdentityRecordModel { purpose: Some(purpose@), ..self@ }),
    {
        IdentityRecord { purpose: Some(purpose), ..self }
    }

    /// Sets the identity version.
    pub fn with_version(self, version: IdentityVersion) -> (r: Self)
        ensures
            r@ == (IdentityRecordModel { version, ..self@ }),
    {
        IdentityRecord { version, ..self }
    }
}

/// Scope of a System 5 policy authority.
#[derive(Debug, PartialEq, Eq)]
pub enum PolicyAuthorityScope {
    Identity,
    Values,
    Strategy,
    Crisis,
    Directive,
    Escalation,
    Custom(String),
}

impl PolicyAuthorityScope {
    /// Copies the scope.
    pub fn copy(&self) -> (r: Self)
        ensures
            r == *self,
    {
        match self {
            PolicyAuthorityScope::Identity => PolicyAuthorityScope::Identity,
            PolicyAuthorityScope::Values => PolicyAuthorityScope::Values,
            PolicyAuthorityScope::Strategy => PolicyAuthorityScope::Strategy,
            PolicyAuthorityScope::Crisis => PolicyAuthorityScope::Crisis,
            PolicyAuthorityScope::Directive => PolicyAuthorityScope::Directive,
            PolicyAuthorityScope::Escalation => PolicyAuthorityScope::Escalation,
            PolicyAuthorityScope::Custom(s) => PolicyAuthorityScope::Custom(s.clone()),
        }
    }
}

/// Policy authority attached to System 5 decisions and directives.
pub struct PolicyAuthority {
    pub authority_id: String,
    pub issued_by: Option<VsmAddress>,
    pub scope: PolicyAuthorityScope,
    pub policy_version: PolicyVersion,
    pub rationale: Option<String>,
}

/// The plain-value view of `PolicyAuthority`.
pub struct PolicyAuthorityModel {
    pub authority_id: Seq<char>,
    pub issued_by: Option<VsmAddressModel>,
    pub scope: PolicyAuthorityScope,
    pub policy_version: PolicyVersion,
    pub rationale: Option<Seq<char>>,
}

impl View for PolicyAuthority {
    type V = PolicyAuthorityModel;

    open spec fn view(&self) -> PolicyAuthorityModel {
        PolicyAuthorityModel {
            authority_id: self.authority_id@,
            issued_by: opt_address(self.issued_by),
            scope: self.scope,
            policy_version: self.policy_version,
            rationale: opt_text(self.rationale),
        }
    }
}

impl Duplicate for PolicyAuthority {
    fn duplicate(&self) -> (r: Self) {
        PolicyAuthority {
            authority_id: self.authority_id.clone(),
            issued_by: copy_address(&self.issued_by),
            scope: self.scope.copy(),
            policy_version: self.policy_version,
            rationale: copy_opt(&self.rationale),
        }
    }
}

impl PolicyAuthority {
    /// Creates a policy authority with a generated `policy-authority-` identity at version 1.
    pub fn new(scope: PolicyAuthorityScope) -> (r: Self)
        ensures
            r.issued_by is None,
            r.scope == scope,
            r.policy_version.value() == 1,
            r.rationale is None,
    {
        let id = fresh_uuid();
        PolicyAuthority {
            authority_id: concat2("policy-authority-", id.as_str()),
            issued_by: None,
            scope,
            policy_version: PolicyVersion::initial(),
            rationale: None,
        }
    }

    /// Adds the issuing address.
    pub fn issued_by(self, issued_by: VsmAddress) -> (r: Self)
        ensures
            r@ == (PolicyAuthorityModel { issued_by: Some(issued_by@), ..self@ }),
    {
        PolicyAuthority { issued_by: Some(issued_by), ..self }
    }

    /// Adds a human-readable rationale.
    pub fn with_rationale(self, rationale: String) -> (r: Self)
        ensures
            r@ == (PolicyAuthorityModel { rationale: Some(rationale@), ..self@ }),
    {
        PolicyAuthority { rationale: Some(rationale), ..self }
    }
}

/// Kind of evidence supporting a decision.
#[derive(Debug, PartialEq, Eq)]
pub enum DecisionEvidenceKind {
    Identity,
    Values,
    System3Operational,
    System4Future,
    Crisis,
    Application,
    Custom(String),
}

impl DecisionEvidenceKind {
    /// Copies the kind.
    pub fn copy(&self) -> (r: Self)
        ensures
            r == *self,
    {
        match self {
            DecisionEvidenceKind::Identity => DecisionEvidenceKind::Identity,
            DecisionEvidenceKind::Values => DecisionEvidenceKind::Values,
            DecisionEvidenceKind::System3Operational => DecisionEvidenceKind::System3Operational,
            DecisionEvidenceKind::System4Future => DecisionEvidenceKind::System4Future,
            DecisionEvidenceKind::Crisis => DecisionEvidenceKind::Crisis,
            DecisionEvidenceKind::Application => DecisionEvidenceKind::Application,
            DecisionEvidenceKind::Custom(s) => DecisionEvidenceKind::Custom(s.clone()),
        }
    }
}

/// Evidence considered by a decision.
pub struct DecisionEvidence {
    pub metadata: ProtocolMetadata,
    pub evidence_id: String,
    pub kind: DecisionEvidenceKind,
    pub summary: String,
    pub provenance: Vec<String>,
    pub observed_at: i64,
}

/// The plain-value view of `DecisionEvidence`.
pub struct DecisionEvidenceModel {
    pub metadata: ProtocolMetadataModel,
    pub evidence_id: Seq<char>,
    pub kind: DecisionEvidenceKind,
    pub summary: Seq<char>,
    pub provenance: Seq<Seq<char>>,
    pub observed_at: i64,
}

impl View for DecisionEvidence {
    type V = DecisionEvidenceModel;

    open spec fn view(&self) -> DecisionEvidenceModel {
        DecisionEvidenceModel {
            metadata: self.metadata@,
            evidence_id: self.evidence_id@,
            kind: self.kind,
            summary: self.summary@,
            provenance: texts(self.provenance@),
            observed_at: self.observed_at,
        }
    }
}

impl Duplicate for DecisionEvidence {
    fn duplicate(&self) -> (r: Self) {
        DecisionEvidence {
            metadata: self.metadata.duplicate(),
            evidence_id: self.evidence_id.clone(),
            kind: self.kind.copy(),
            summary: self.summary.clone(),
            provenance: copy_texts(&self.provenance),
            observed_at: self.observed_at,
        }
    }
}

/// The evidence text drawn from a System 3 summary.
pub open spec fn operational_evidence_text(s: OperationalSummaryModel) -> Seq<char> {
    "System 3 summary "@ + s.summary_id + ": "@ + crate::text::decimal(s.resource_request_count as u64)
        + " requests, "@ + crate::text::decimal(s.allocation_count as u64) + " allocations, "@
        + crate::text::decimal(s.directive_count as u64) + " directives, "@ + crate::text::decimal(
        s.failed_acknowledgement_count as u64,
    ) + " failed acknowledgements"@
}

/// Whether evidence is what System 5 draws from a System 3 summary.
pub open spec fn evidence_of_summary(e: DecisionEvidenceModel, s: OperationalSummaryModel) -> bool {
    &&& e.kind == DecisionEvidenceKind::System3Operational
    &&& e.summary == operational_evidence_text(s)
    &&& e.provenance == seq!["system3-summary:"@ + s.summary_id]
    &&& e.observed_at == s.generated_at
}

/// The text of the evidence drawn from a System 4 proposal.
pub open spec fn proposal_evidence_text(p: ProposalRoutingModel) -> Seq<char> {
    "System 4 proposal "@ + p.proposal_id + ": "@ + p.title
}

/// Whether evidence is what System 5 draws from a System 4 adaptation proposal.
pub open spec fn evidence_of_proposal(e: DecisionEvidenceModel, p: ProposalRoutingModel) -> bool {
    &&& e.metadata == child_metadata(p.metadata)
    &&& e.kind == DecisionEvidenceKind::System4Future
    &&& e.summary == proposal_evidence_text(p)
    &&& e.provenance == p.provenance
    &&& e.observed_at == p.generated_at
}

impl DecisionEvidence {
    /// Creates evidence with a generated `decision-evidence-` identity.
    pub fn new(kind: DecisionEvidenceKind, summary: String, now: i64) -> (r: Self)
        ensures
            fresh_metadata(r.metadata@),
            r.kind == kind,
            r.summary == summary,
            r.provenance@.len() == 0,
            r.observed_at == now,
    {
        let id = fresh_uuid();
        DecisionEvidence {
            metadata: ProtocolMetadata::new(),
            evidence_id: concat2("decision-evidence-", id.as_str()),
            kind,
            summary,
            provenance: Vec::new(),
            observed_at: now,
        }
    }

    /// Creates System 3 operational evidence from a summary.
    pub fn from_operational_summary(summary: &OperationalSummary) -> (r: Self)
        ensures
            child_of(r.metadata@, summary.metadata@),
            evidence_of_summary(r@, summary@),
    {
        let mut text = concat2("System 3 summary ", summary.summary_id.as_str());
        text.append(": ");
        let a = crate::text::u64_text(summary.resource_request_count as u64);
        text.append(a.as_str());
        text.append(" requests, ");
        let b = crate::text::u64_text(summary.allocation_count as u64);
        text.append(b.as_str());
        text.append(" allocations, ");
        let c = crate::text::u64_text(summary.directive_count as u64);
        text.append(c.as_str());
        text.append(" directives, ");
        let d = crate::text::u64_text(summary.failed_acknowledgement_count as u64);
        text.append(d.as_str());
        text.append(" failed acknowledgements");
        let mut provenance: Vec<String> = Vec::new();
        provenance.push(concat2("system3-summary:", summary.summary_id.as_str()));
        let id = fresh_uuid();
        let r = DecisionEvidence {
            metadata: summary.metadata.child(),
            evidence_id: concat2("decision-evidence-", id.as_str()),
            kind: DecisionEvidenceKind::System3Operational,
            summary: text,
            provenance,
            observed_at: summary.generated_at,
        };
        assert(texts(r.provenance@) =~= seq!["system3-summary:"@ + summary.summary_id@]);
        r
    }

    /// Creates System 4 evidence from an adaptation proposal: its title and provenance,
    /// observed when the proposal was made.
    pub fn from_adaptation_proposal(proposal: &ProposalRouting) -> (r: Self)
        ensures
            evidence_of_proposal(r@, proposal@),
    {
        let text = concat3("System 4 proposal ", proposal.proposal_id.as_str(), ": ");
        let mut summary = text;
        summary.append(proposal.title.as_str());
        let id = fresh_uuid();
        DecisionEvidence {
            metadata: proposal.metadata.child(),
            evidence_id: concat2("decision-evidence-", id.as_str()),
            kind: DecisionEvidenceKind::System4Future,
            summary,
            provenance: copy_texts(&proposal.provenance),
            observed_at: proposal.generated_at,
        }
    }
}

/// Framework-owned policy directive category.
#[derive(Debug, PartialEq, Eq)]
pub enum PolicyDirectiveKind {
    Strategic,
    OperationalConstraint,
    CrisisResponse,
    Review,
    Escalation,
    Custom(String),
}

impl PolicyDirectiveKind {
    /// Copies the kind.
    pub fn copy(&self) -> (r: Self)
        ensures
            r == *self,
    {
        match self {
            PolicyDirectiveKind::Strategic => PolicyDirectiveKind::Strategic,
            PolicyDirectiveKind::OperationalConstraint => PolicyDirectiveKind::OperationalConstraint,
            PolicyDirectiveKind::CrisisResponse => PolicyDirectiveKind::CrisisResponse,
            PolicyDirectiveKind::Review => PolicyDirectiveKind::Review,
            PolicyDirectiveKind::Escalation => PolicyDirectiveKind::Escalation,
            PolicyDirectiveKind::Custom(s) => PolicyDirectiveKind::Custom(s.clone()),
        }
    }
}

/// Policy directive issued by System 5.
pub struct PolicyDirective {
    pub metadata: ProtocolMetadata,
    pub directive_id: String,
    pub kind: PolicyDirectiveKind,
    pub target_units: Vec<String>,
    pub target: Option<VsmAddress>,
    pub summary: String,
    pub authority: PolicyAuthority,
    pub version: PolicyVersion,
    pub issued_at: i64,
    pub expires_at: Option<i64>,
    pub requires_ack: bool,
}

/// The plain-value view of `PolicyDirective`.
pub struct PolicyDirectiveModel {
    pub metadata: ProtocolMetadataModel,
    pub directive_id: Seq<char>,
    pub kind: PolicyDirectiveKind,
    pub target_units: Seq<Seq<char>>,
    pub target: Option<VsmAddressModel>,
    pub summary: Seq<char>,
    pub authority: PolicyAuthorityModel,
    pub version: PolicyVersion,
    pub issued_at: i64,
    pub expires_at: Option<i64>,
    pub requires_ack: bool,
}

impl View for PolicyDirective {
    type V = PolicyDirectiveModel;

    open spec fn view(&self) -> PolicyDirectiveModel {
        PolicyDirectiveModel {
            metadata: self.metadata@,
            directive_id: self.directive_id@,
            kind: self.kind,
            target_units: texts(self.target_units@),
            target: opt_address(self.target),
            summary: self.summary@,
            authority: self.authority@,
            version: self.version,
            issued_at: self.issued_at,
            expires_at: self.expires_at,
            requires_ack: self.requires_ack,
        }
    }
}

impl Duplicate for PolicyDirective {
    fn duplicate(&self) -> (r: Self) {
        PolicyDirective {
            metadata: self.metadata.duplicate(),
            directive_id: self.directive_id.clone(),
            kind: self.kind.copy(),
            target_units: copy_texts(&self.target_units),
            target: copy_address(&self.target),
            summary: self.summary.clone(),
            authority: self.authority.duplicate(),
            version: self.version,
            issued_at: self.issued_at,
            expires_at: self.expires_at,
            requires_ack: self.requires_ack,
        }
    }
}

impl PolicyDirective {
    /// Creates a directive with a generated `policy-directive-` identity; it needs acknowledgement.
    pub fn new(kind: PolicyDirectiveKind, summary: String, now: i64) -> (r: Self)
        ensures
            fresh_metadata(r.metadata@),
            r.kind == kind,
            r.target_units@.len() == 0,
            r.target is None,
            r.summary == summary,
            r.authority.scope == PolicyAuthorityScope::Directive,
            r.authority.issued_by is None,
            r.version.value() == 1,
            r.issued_at == now,
            r.expires_at is None,
            r.requires_ack,
    {
        let id = fresh_uuid();
        PolicyDirective {
            metadata: ProtocolMetadata::new(),
            directive_id: concat2("policy-directive-", id.as_str()),
            kind,
            target_units: Vec::new(),
            target: None,
            summary,
            authority: PolicyAuthority::new(PolicyAuthorityScope::Directive),
            version: PolicyVersion::initial(),
            issued_at: now,
            expires_at: None,
            requires_ack: true,
        }
    }

    /// Sets the target units.
    pub fn with_target_units(self, units: Vec<String>) -> (r: Self)
        ensures
            r@ == (PolicyDirectiveModel { target_units: texts(units@), ..self@ }),
    {
        PolicyDirective { target_units: units, ..self }
    }

    /// Sets the target address.
    pub fn with_target(self, target: VsmAddress) -> (r: Self)
        ensures
            r@ == (PolicyDirectiveModel { target: Some(target@), ..self@ }),
    {
        PolicyDirective { target: Some(target), ..self }
    }

    /// Marks whether the directive must be acknowledged.
    pub fn with_required_ack(self, requires_ack: bool) -> (r: Self)
        ensures
            r@ == (PolicyDirectiveModel { requires_ack, ..self@ }),
    {
        PolicyDirective { requires_ack, ..self }
    }
}

/// Acknowledgement status for System 5 directives.
#[derive(Debug, Clone, Copy, PartialEq, Eq, Structural)]
pub enum PolicyAckStatus {
    Accepted,
    Rejected,
    Applied,
    Failed,
    Expired,
}

impl PolicyAckStatus {
    /// Accepted or applied.
    pub open spec fn succeeded(self) -> bool {
        self == PolicyAckStatus::Accepted || self == PolicyAckStatus::Applied
    }

    /// Returns true when the directive was accepted or applied.
    pub fn is_success(self) -> (b: bool)
        ensures
            b == self.succeeded(),
    {
        match self {
            PolicyAckStatus::Accepted | PolicyAckStatus::Applied => true,
            _ => false,
        }
    }
}

/// Acknowledgement for a policy directive.
pub struct PolicyDirectiveAcknowledgement {
    pub metadata: ProtocolMetadata,
    pub directive_id: String,
    pub target_unit: Option<String>,
    pub target: Option<VsmAddress>,
    pub status: PolicyAckStatus,
    pub reason: Option<String>,
    pub observed_at: i64,
}

/// The plain-value view of `PolicyDirectiveAcknowledgement`.
pub struct PolicyDirectiveAcknowledgementModel {
    pub metadata: ProtocolMetadataModel,
    pub directive_id: Seq<char>,
    pub target_unit: Option<Seq<char>>,
    pub target: Option<VsmAddressModel>,
    pub status: PolicyAckStatus,
    pub reason: Option<Seq<char>>,
    pub observed_at: i64,
}

impl View for PolicyDirectiveAcknowledgement {
    type V = PolicyDirectiveAcknowledgementModel;

    open spec fn view(&self) -> PolicyDirectiveAcknowledgementModel {
        PolicyDirectiveAcknowledgementModel {
            metadata: self.metadata@,
            directive_id: self.directive_id@,
            target_unit: opt_text(self.target_unit),
            target: opt_address(self.target),
            status: self.status,
            reason: opt_text(self.reason),
            observed_at: self.observed_at,
        }
    }
}

impl Duplicate for PolicyDirectiveAcknowledgement {
    fn duplicate(&self) -> (r: Self) {
        PolicyDirectiveAcknowledgement {
            metadata: self.metadata.duplicate(),
            directive_id: self.directive_id.clone(),
            target_unit: copy_opt(&self.target_unit),
            target: copy_address(&self.target),
            status: self.status,
            reason: copy_opt(&self.reason),
            observed_at: self.observed_at,
        }
    }
}

/// The first target unit of a directive, if any.
pub open spec fn first_unit(units: Seq<Seq<char>>) -> Option<Seq<char>> {
    if units.len() > 0 {
        Some(units[0])
    } else {
        None
    }
}

impl PolicyDirectiveAcknowledgement {
    fn make(directive: &PolicyDirective, status: PolicyAckStatus, reason: Option<String>, now: i64) -> (r: Self)
        ensures
            child_of(r.metadata@, directive.metadata@),
            r@ == (PolicyDirectiveAcknowledgementModel {
                metadata: r.metadata@,
                directive_id: directive.directive_id@,
                target_unit: first_unit(directive@.target_units),
                target: directive@.target,
                status,
                reason: opt_text(reason),
                observed_at: now,
            }),
    {
        let target_unit = if directive.target_units.len() > 0 {
            Some(directive.target_units[0].clone())
        } else {
            None
        };
        PolicyDirectiveAcknowledgement {
            metadata: directive.metadata.child(),
            directive_id: directive.directive_id.clone(),
            target_unit,
            target: copy_address(&directive.target),
            status,
            reason,
            observed_at: now,
        }
    }

    /// Accepts a directive on behalf of its first target unit.
    pub fn accepted(directive: &PolicyDirective, now: i64) -> (r: Self)
        ensures
            child_of(r.metadata@, directive.metadata@),
            r@ == (PolicyDirectiveAcknowledgementModel {
                metadata: r.metadata@,
                directive_id: directive.directive_id@,
                target_unit: first_unit(directive@.target_units),
                target: directive@.target,
                status: PolicyAckStatus::Accepted,
                reason: None,
                observed_at: now,
            }),
    {
        PolicyDirectiveAcknowledgement::make(directive, PolicyAckStatus::Accepted, None, now)
    }

    /// Reports a directive that could not be applied.
    pub fn failed(directive: &PolicyDirective, reason: String, now: i64) -> (r: Self)
        ensures
            child_of(r.metadata@, directive.metadata@),
            r@ == (PolicyDirectiveAcknowledgementModel {
                metadata: r.metadata@,
                directive_id: directive.directive_id@,
                target_unit: first_unit(directive@.target_units),
                target: directive@.target,
                status: PolicyAckStatus::Failed,
                reason: Some(reason@),
                observed_at: now,
            }),
    {
        PolicyDirectiveAcknowledgement::make(directive, PolicyAckStatus::Failed, Some(reason), now)
    }
}

/// One alternative considered by a decision.
pub struct DecisionAlternative {
    pub alternative_id: String,
    pub summary: String,
    pub expected_capabilities: Vec<String>,
    pub target_units: Vec<String>,
    pub directives: Vec<PolicyDirective>,
    pub rationale: Option<String>,
}

/// The plain-value view of `DecisionAlternative`.
pub struct DecisionAlternativeModel {
    pub alternative_id: Seq<char>,
    pub summary: Seq<char>,
    pub expected_capabilities: Seq<Seq<char>>,
    pub target_units: Seq<Seq<char>>,
    pub directives: Seq<PolicyDirectiveModel>,
    pub rationale: Option<Seq<char>>,
}

impl View for DecisionAlternative {
    type V = DecisionAlternativeModel;

    open spec fn view(&self) -> DecisionAlternativeModel {
        DecisionAlternativeModel {
            alternative_id: self.alternative_id@,
            summary: self.summary@,
            expected_capabilities: texts(self.expected_capabilities@),
            target_units: texts(self.target_units@),
            directives: view_seq(self.directives@),
            rationale: opt_text(self.rationale),
        }
    }
}

impl Duplicate for DecisionAlternative {
    fn duplicate(&self) -> (r: Self) {
        DecisionAlternative {
            alternative_id: self.alternative_id.clone(),
            summary: self.summary.clone(),
            expected_capabilities: copy_texts(&self.expected_capabilities),
            target_units: copy_texts(&self.target_units),
            directives: dup_vec(&self.directives),
            rationale: copy_opt(&self.rationale),
        }
    }
}

impl DecisionAlternative {
    /// Creates an alternative with a generated `decision-alternative-` identity.
    pub fn new(summary: String) -> (r: Self)
        ensures
            r.summary == summary,
            r.expected_capabilities@.len() == 0,
            r.target_units@.len() == 0,
            r.directives@.len() == 0,
            r.rationale is None,
    {
        let id = fresh_uuid();
        DecisionAlternative {
            alternative_id: concat2("decision-alternative-", id.as_str()),
            summary,
            expected_capabilities: Vec::new(),
            target_units: Vec::new(),
            directives: Vec::new(),
            rationale: None,
        }
    }

    /// Adds a directive the alternative would issue.
    pub fn with_directive(self, directive: PolicyDirective) -> (r: Self)
        ensures
            r@ == (DecisionAlternativeModel { directives: self@.directives.push(directive@), ..self@ }),
    {
        let mut s = self;
        let ghost before = s.directives@;
        let ghost d = directive@;
        s.directives.push(directive);
        assert(view_seq(s.directives@) =~= view_seq(before).push(d));
        s
    }

    /// Adds a rationale.
    pub fn with_rationale(self, rationale: String) -> (r: Self)
        ensures
            r@ == (DecisionAlternativeModel { rationale: Some(rationale@), ..self@ }),
    {
        DecisionAlternative { rationale: Some(rationale), ..self }
    }
}

/// Result of evaluating a request against identity and values; its floating-point
/// score has no field here.
pub struct ValuesEvaluation {
    pub metadata: ProtocolMetadata,
    pub evaluation_id: String,
    pub identity_version: IdentityVersion,
    pub values_version: ValuesVersion,
    pub aligned: bool,
    pub findings: Vec<String>,
    pub rationale: Option<String>,
    pub evaluated_at: i64,
}

/// The plain-value view of `ValuesEvaluation`.
pub struct ValuesEvaluationModel {
    pub metadata: ProtocolMetadataModel,
    pub evaluation_id: Seq<char>,
    pub identity_version: IdentityVersion,
    pub values_version: ValuesVersion,
    pub aligned: bool,
    pub findings: Seq<Seq<char>>,
    pub rationale: Option<Seq<char>>,
    pub evaluated_at: i64,
}

impl View for ValuesEvaluation {
    type V = ValuesEvaluationModel;

    open spec fn view(&self) -> ValuesEvaluationModel {
        ValuesEvaluationModel {
            metadata: self.metadata@,
            evaluation_id: self.evaluation_id@,
            identity_version: self.identity_version,
            values_version: self.values_version,
            aligned: self.aligned,
            findings: texts(self.findings@),
            rationale: opt_text(self.rationale),
            evaluated_at: self.evaluated_at,
        }
    }
}

impl Duplicate for ValuesEvaluation {
    fn duplicate(&self) -> (r: Self) {
        ValuesEvaluation {
            metadata: self.metadata.duplicate(),
            evaluation_id: self.evaluation_id.clone(),
            identity_version: self.identity_version,
            values_version: self.values_version,
            aligned: self.aligned,
            findings: copy_texts(&self.findings),
            rationale: copy_opt(&self.rationale),
            evaluated_at: self.evaluated_at,
        }
    }
}

/// Status of a System 5 decision.
#[derive(Debug, Clone, Copy, PartialEq, Eq, Structural)]
pub enum DecisionStatus {
    Proposed,
    Approved,
    Rejected,
    Deferred,
    Escalated,
    Crisis,
}

/// Escalation raised by System 5.
pub struct PolicyEscalation {
    pub metadata: ProtocolMetadata,
    pub escalation_id: String,
    pub reason: String,
    pub target: Option<VsmAddress>,
    pub requires_parent: bool,
    pub created_at: i64,
}

/// The plain-value view of `PolicyEscalation`.
pub struct PolicyEscalationModel {
    pub metadata: ProtocolMetadataModel,
    pub escalation_id: Seq<char>,
    pub reason: Seq<char>,
    pub target: Option<VsmAddressModel>,
    pub requires_parent: bool,
    pub created_at: i64,
}

impl View for PolicyEscalation {
    type V = PolicyEscalationModel;

    open spec fn view(&self) -> PolicyEscalationModel {
        PolicyEscalationModel {
            metadata: self.metadata@,
            escalation_id: self.escalation_id@,
            reason: self.reason@,
            target: opt_address(self.target),
            requires_parent: self.requires_parent,
            created_at: self.created_at,
        }
    }
}

impl Duplicate for PolicyEscalation {
    fn duplicate(&self) -> (r: Self) {
        PolicyEscalation {
            metadata: self.metadata.duplicate(),
            escalation_id: self.escalation_id.clone(),
            reason: self.reason.clone(),
            target: copy_address(&self.target),
            requires_parent: self.requires_parent,
            created_at: self.created_at,
        }
    }
}

impl PolicyEscalation {
    /// Creates a local escalation with a generated `policy-escalation-` identity.
    pub fn new(reason: String, now: i64) -> (r: Self)
        ensures
            fresh_metadata(r.metadata@),
            r.reason == reason,
            r.target is None,
            !r.requires_parent,
            r.created_at == now,
    {
        let id = fresh_uuid();
        PolicyEscalation {
            metadata: ProtocolMetadata::new(),
            escalation_id: concat2("policy-escalation-", id.as_str()),
            reason,
            target: None,
            requires_parent: false,
            created_at: now,
        }
    }

    /// Directs the escalation to a parent runtime.
    pub fn to_parent(self, target: VsmAddress) -> (r: Self)
        ensures
            r@ == (PolicyEscalationModel { target: Some(target@), requires_parent: true, ..self@ }),
    {
        PolicyEscalation { target: Some(target), requires_parent: true, ..self }
    }
}

/// A decision request submitted to System 5.
pub struct DecisionRequest {
    pub metadata: ProtocolMetadata,
    pub request_id: String,
    pub subject: String,
    pub summary: Option<String>,
    pub policy_area: Option<String>,
    pub priority: Priority,
    pub alternatives: Vec<DecisionAlternative>,
    pub evidence: Vec<DecisionEvidence>,
    pub operational_summaries: Vec<OperationalSummary>,
    pub adaptation_proposals: Vec<ProposalRouting>,
    pub requested_at: i64,
    pub review_at: Option<i64>,
}

impl DecisionRequest {
    /// Creates a request with a generated `decision-request-` identity.
    pub fn new(subject: String, now: i64) -> (r: Self)
        ensures
            fresh_metadata(r.metadata@),
            r.subject == subject,
            r.summary is None,
            r.policy_area is None,
            r.priority == Priority::Normal,
            r.alternatives@.len() == 0,
            r.evidence@.len() == 0,
            r.operational_summaries@.len() == 0,
            r.adaptation_proposals@.len() == 0,
            r.requested_at == now,
            r.review_at is None,
    {
        let id = fresh_uuid();
        DecisionRequest {
            metadata: ProtocolMetadata::new(),
            request_id: concat2("decision-request-", id.as_str()),
            subject,
            summary: None,
            policy_area: None,
            priority: Priority::Normal,
            alternatives: Vec::new(),
            evidence: Vec::new(),
            operational_summaries: Vec::new(),
            adaptation_proposals: Vec::new(),
            requested_at: now,
            review_at: None,
        }
    }

    /// Adds an alternative.
    pub fn with_alternative(self, alternative: DecisionAlternative) -> (r: Self)
        ensures
            view_seq(r.alternatives@) == view_seq(self.alternatives@).push(alternative@),
            r.request_id == self.request_id,
            r.subject == self.subject,
            r.evidence@ == self.evidence@,
            r.operational_summaries@ == self.operational_summaries@,
    {
        let mut s = self;
        let ghost before = s.alternatives@;
        let ghost a = alternative@;
        s.alternatives.push(alternative);
        assert(view_seq(s.alternatives@) =~= view_seq(before).push(a));
        s
    }

    /// Adds evidence.
    pub fn with_evidence(self, evidence: DecisionEvidence) -> (r: Self)
        ensures
            view_seq(r.evidence@) == view_seq(self.evidence@).push(evidence@),
            r.request_id == self.request_id,
            r.subject == self.subject,
            r.alternatives@ == self.alternatives@,
            r.operational_summaries@ == self.operational_summaries@,
    {
        let mut s = self;
        let ghost before = s.evidence@;
        let ghost e = evidence@;
        s.evidence.push(evidence);
        assert(view_seq(s.evidence@) =~= view_seq(before).push(e));
        s
    }

    /// Adds a System 3 operational summary.
    pub fn with_operational_summary(self, summary: OperationalSummary) -> (r: Self)
        ensures
            view_seq(r.operational_summaries@) == view_seq(self.operational_summaries@).push(summary@),
            r.request_id == self.request_id,
            r.subject == self.subject,
            r.alternatives@ == self.alternatives@,
            r.evidence@ == self.evidence@,
    {
        let mut s = self;
        let ghost before = s.operational_summaries@;
        let ghost m = summary@;
        s.operational_summaries.push(summary);
        assert(view_seq(s.operational_summaries@) =~= view_seq(before).push(m));
        s
    }

    /// Adds a System 4 adaptation proposal.
    pub fn with_adaptation_proposal(self, proposal: ProposalRouting) -> (r: Self)
        ensures
            view_seq(r.adaptation_proposals@) == view_seq(self.adaptation_proposals@).push(proposal@),
            r.request_id == self.request_id,
            r.subject == self.subject,
            r.alternatives@ == self.alternatives@,
            r.evidence@ == self.evidence@,
            r.operational_summaries@ == self.operational_summaries@,
    {
        let mut s = self;
        let ghost before = s.adaptation_proposals@;
        let ghost m = proposal@;
        s.adaptation_proposals.push(proposal);
        assert(view_seq(s.adaptation_proposals@) =~= view_seq(before).push(m));
        s
    }
}

/// A recorded System 5 decision.
pub struct DecisionRecord {
    pub metadata: ProtocolMetadata,
    pub decision_id: String,
    pub request_id: String,
    pub subject: String,
    pub status: DecisionStatus,
    pub selected: Option<DecisionAlternative>,
    pub alternatives: Vec<DecisionAlternative>,
    pub evidence: Vec<DecisionEvidence>,
    pub evaluation: Option<ValuesEvaluation>,
    pub authority: PolicyAuthority,
    pub rationale: String,
    pub directives: Vec<PolicyDirective>,
    pub escalations: Vec<PolicyEscalation>,
    pub decided_at: i64,
    pub review_at: Option<i64>,
    pub identity_version: IdentityVersion,
    pub values_version: ValuesVersion,
    pub policy_version: PolicyVersion,
}

/// The plain-value view of `DecisionRecord`.
pub struct DecisionRecordModel {
    pub metadata: ProtocolMetadataModel,
    pub decision_id: Seq<char>,
    pub request_id: Seq<char>,
    pub subject: Seq<char>,
    pub status: DecisionStatus,
    pub selected: Option<DecisionAlternativeModel>,
    pub alternatives: Seq<DecisionAlternativeModel>,
    pub evidence: Seq<DecisionEvidenceModel>,
    pub evaluation: Option<ValuesEvaluationModel>,
    pub authority: PolicyAuthorityModel,
    pub rationale: Seq<char>,
    pub directives: Seq<PolicyDirectiveModel>,
    pub escalations: Seq<PolicyEscalationModel>,
    pub decided_at: i64,
    pub review_at: Option<i64>,
    pub identity_version: IdentityVersion,
    pub values_version: ValuesVersion,
    pub policy_version: PolicyVersion,
}

/// An optional record as plain values.
pub open spec fn opt_view<T: View>(o: Option<T>) -> Option<T::V> {
    match o {
        Some(x) => Some(x@),
        None => None,
    }
}

/// Copies an optional record.
pub fn dup_opt<T: Duplicate>(o: &Option<T>) -> (r: Option<T>)
    ensures
        opt_view(r) == opt_view(*o),
{
    match o {
        Some(x) => Some(x.duplicate()),
        None => None,
    }
}

impl View for DecisionRecord {
    type V = DecisionRecordModel;

    open spec fn view(&self) -> DecisionRecordModel {
        DecisionRecordModel {
            metadata: self.metadata@,
            decision_id: self.decision_id@,
            request_id: self.request_id@,
            subject: self.subject@,
            status: self.status,
            selected: opt_view(self.selected),
            alternatives: view_seq(self.alternatives@),
            evidence: view_seq(self.evidence@),
            evaluation: opt_view(self.evaluation),
            authority: self.authority@,
            rationale: self.rationale@,
            directives: view_seq(self.directives@),
            escalations: view_seq(self.escalations@),
            decided_at: self.decided_at,
            review_at: self.review_at,
            identity_version: self.identity_version,
            values_version: self.values_version,
            policy_version: self.policy_version,
        }
    }
}

impl Duplicate for DecisionRecord {
    fn duplicate(&self) -> (r: Self) {
        DecisionRecord {
            metadata: self.metadata.duplicate(),
            decision_id: self.decision_id.clone(),
            request_id: self.request_id.clone(),
            subject: self.subject.clone(),
            status: self.status,
            selected: dup_opt(&self.selected),
            alternatives: dup_vec(&self.alternatives),
            evidence: dup_vec(&self.evidence),
            evaluation: dup_opt(&self.evaluation),
            authority: self.authority.duplicate(),
            rationale: self.rationale.clone(),
            directives: dup_vec(&self.directives),
            escalations: dup_vec(&self.escalations),
            decided_at: self.decided_at,
            review_at: self.review_at,
            identity_version: self.identity_version,
            values_version: self.values_version,
            policy_version: self.policy_version,
        }
    }
}

impl DecisionRecord {
    /// Creates a decision for a request under a fresh strategy authority, with a generated
    /// `decision-` identity.
    pub fn new(
        request: &DecisionRequest,
        identity: &IdentityRecord,
        values_version: ValuesVersion,
        status: DecisionStatus,
        rationale: String,
        now: i64,
    ) -> (r: Self)
        ensures
            child_of(r.metadata@, request.metadata@),
            r.request_id == request.request_id,
            r.subject == request.subject,
            r.status == status,
            r.selected is None,
            view_seq(r.alternatives@) == view_seq(request.alternatives@),
            view_seq(r.evidence@) == view_seq(request.evidence@),
            r.evaluation is None,
            r.authority.scope == PolicyAuthorityScope::Strategy,
            r.authority.issued_by is None,
            r.rationale == rationale,
            r.directives@.len() == 0,
            r.escalations@.len() == 0,
            r.decided_at == now,
            r.review_at == request.review_at,
            r.identity_version == identity.version,
            r.values_version == values_version,
            r.policy_version == r.authority.policy_version,
            r.policy_version.value() == 1,
    {
        let authority = PolicyAuthority::new(PolicyAuthorityScope::Strategy);
        let policy_version = authority.policy_version;
        let id = fresh_uuid();
        DecisionRecord {
            metadata: request.metadata.child(),
            decision_id: concat2("decision-", id.as_str()),
            request_id: request.request_id.clone(),
            subject: request.subject.clone(),
            status,
            selected: None,
            alternatives: dup_vec(&request.alternatives),
            evidence: dup_vec(&request.evidence),
            evaluation: None,
            authority,
            rationale,
            directives: Vec::new(),
            escalations: Vec::new(),
            decided_at: now,
            review_at: request.review_at,
            identity_version: identity.version,
            values_version,
            policy_version,
        }
    }

    /// Attaches a values evaluation and takes its identity and values versions.
    pub fn with_evaluation(self, evaluation: ValuesEvaluation) -> (r: Self)
        ensures
            r@ == (DecisionRecordModel {
                identity_version: evaluation.identity_version,
                values_version: evaluation.values_version,
                evaluation: Some(evaluation@),
                ..self@
            }),
    {
        DecisionRecord {
            identity_version: evaluation.identity_version,
            values_version: evaluation.values_version,
            evaluation: Some(evaluation),
            ..self
        }
    }

    /// Selects an alternative; the decision issues its directives.
    pub fn with_selected(self, selected: DecisionAlternative) -> (r: Self)
        ensures
            r@ == (DecisionRecordModel { directives: selected@.directives, selected: Some(selected@), ..self@ }),
    {
        let directives = dup_vec(&selected.directives);
        DecisionRecord { directives, selected: Some(selected), ..self }
    }
}

/// Severity of a crisis signal.
#[derive(Debug, Clone, Copy, PartialEq, Eq, Structural)]
pub enum CrisisSeverity {
    Low,
    Medium,
    High,
    Critical,
}

/// Crisis signal routed to System 5.
pub struct CrisisSignal {
    pub metadata: ProtocolMetadata,
    pub signal_id: String,
    pub severity: CrisisSeverity,
    pub source: Option<VsmAddress>,
    pub summary: String,
    pub evidence: Vec<DecisionEvidence>,
    pub raised_at: i64,
}

impl CrisisSignal {
    /// Creates a crisis signal with a generated `crisis-signal-` identity.
    pub fn new(severity: CrisisSeverity, summary: String, now: i64) -> (r: Self)
        ensures
            fresh_metadata(r.metadata@),
            r.severity == severity,
            r.source is None,
            r.summary == summary,
            r.evidence@.len() == 0,
            r.raised_at == now,
    {
        let id = fresh_uuid();
        CrisisSignal {
            metadata: ProtocolMetadata::new(),
            signal_id: concat2("crisis-signal-", id.as_str()),
            severity,
            source: None,
            summary,
            evidence: Vec::new(),
            raised_at: now,
        }
    }

    /// Sets the source of the signal.
    pub fn from_source(self, source: VsmAddress) -> (r: Self)
        ensures
            r.signal_id == self.signal_id,
            r.severity == self.severity,
            r.source == Some(source),
            r.summary == self.summary,
            r.evidence@ == self.evidence@,
            r.raised_at == self.raised_at,
    {
        CrisisSignal { source: Some(source), ..self }
    }

    /// Adds supporting evidence.
    pub fn with_evidence(self, evidence: DecisionEvidence) -> (r: Self)
        ensures
            r.signal_id == self.signal_id,
            r.severity == self.severity,
            r.source == self.source,
            r.summary == self.summary,
            view_seq(r.evidence@) == view_seq(self.evidence@).push(evidence@),
            r.raised_at == self.raised_at,
    {
        let mut s = self;
        let ghost before = s.evidence@;
        let ghost e = evidence@;
        s.evidence.push(evidence);
        assert(view_seq(s.evidence@) =~= view_seq(before).push(e));
        s
    }
}

/// System 5's response to a crisis.
pub struct CrisisResponse {
    pub metadata: ProtocolMetadata,
    pub response_id: String,
    pub signal_id: String,
    pub decision: DecisionRecord,
    pub directives: Vec<PolicyDirective>,
    pub escalations: Vec<PolicyEscalation>,
    pub responded_at: i64,
}

/// The plain-value view of `CrisisResponse`.
pub struct CrisisResponseModel {
    pub metadata: ProtocolMetadataModel,
    pub response_id: Seq<char>,
    pub signal_id: Seq<char>,
    pub decision: DecisionRecordModel,
    pub directives: Seq<PolicyDirectiveModel>,
    pub escalations: Seq<PolicyEscalationModel>,
    pub responded_at: i64,
}

impl View for CrisisResponse {
    type V = CrisisResponseModel;

    open spec fn view(&self) -> CrisisResponseModel {
        CrisisResponseModel {
            metadata: self.metadata@,
            response_id: self.response_id@,
            signal_id: self.signal_id@,
            decision: self.decision@,
            directives: view_seq(self.directives@),
            escalations: view_seq(self.escalations@),
            responded_at: self.responded_at,
        }
    }
}

impl Duplicate for CrisisResponse {
    fn duplicate(&self) -> (r: Self) {
        CrisisResponse {
            metadata: self.metadata.duplicate(),
            response_id: self.response_id.clone(),
            signal_id: self.signal_id.clone(),
            decision: self.decision.duplicate(),
            directives: dup_vec(&self.directives),
            escalations: dup_vec(&self.escalations),
            responded_at: self.responded_at,
        }
    }
}

impl CrisisResponse {
    /// Creates a response to a signal carrying the decision's directives and escalations,
    /// with a generated `crisis-response-` identity.
    pub fn new(signal: &CrisisSignal, decision: DecisionRecord, now: i64) -> (r: Self)
        ensures
            child_of(r.metadata@, signal.metadata@),
            r.signal_id == signal.signal_id,
            r.decision@ == decision@,
            view_seq(r.directives@) == decision@.directives,
            view_seq(r.escalations@) == decision@.escalations,
            r.responded_at == now,
    {
        let id = fresh_uuid();
        CrisisResponse {
            metadata: signal.metadata.child(),
            response_id: concat2("crisis-response-", id.as_str()),
            signal_id: signal.signal_id.clone(),
            directives: dup_vec(&decision.directives),
            escalations: dup_vec(&decision.escalations),
            decision,
            responded_at: now,
        }
    }
}

/// System 5 snapshot.
pub struct System5Snapshot {
    pub identity: Option<IdentityRecord>,
    pub decisions: Vec<DecisionRecord>,
    pub directives: Vec<PolicyDirective>,
    pub directive_acknowledgements: Vec<PolicyDirectiveAcknowledgement>,
    pub crises: Vec<CrisisResponse>,
    pub escalations: Vec<PolicyEscalation>,
    pub last_decision_at: Option<i64>,
}

} // verus!

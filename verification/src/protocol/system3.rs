//! Typed System 3 control, resource and audit protocol records.
//!
//! Instants are epoch milliseconds.

use vstd::prelude::*;

use crate::dup::{view_seq, Duplicate};
use crate::kernel::system1::ResourceShortageRequest;
use crate::support::fresh_uuid;
use crate::text::{concat2, texts};

use super::address::{opt_address, VsmAddress, VsmAddressModel};
use super::envelope::{copy_address, Priority};
use super::system1::AuditScope;
use super::system2::{copy_opt, opt_text};

use crate::protocol::envelope::{child_of, fresh_metadata, ProtocolMetadata, ProtocolMetadataModel};
verus! {

/// Monotonic version assigned to System 3 directives and allocations.
#[derive(Debug, Clone, Copy, PartialEq, Eq, PartialOrd, Ord, Hash, Structural)]
pub struct ControlVersion(u64);

impl ControlVersion {
    /// The raw number, for specifications.
    pub closed spec fn value(self) -> u64 {
        self.0
    }

    /// Initial authority version, 1.
    pub fn initial() -> (r: Self)
        ensures
            r.value() == 1,
    {
        ControlVersion(1)
    }

    /// Returns the next version, saturating at `u64::MAX`.
    pub fn next(self) -> (r: Self)
        ensures
            r.value() == if self.value() < u64::MAX { self.value() + 1 } else { u64::MAX as int },
    {
        ControlVersion(self.0.saturating_add(1))
    }

    /// Returns the raw version number.
    pub fn get(self) -> (r: u64)
        ensures
            r == self.value(),
    {
        self.0
    }
}

/// Scope covered by a System 3 authority assertion.
#[derive(Debug, PartialEq, Eq)]
pub enum AuthorityScope {
    AllOperations,
    ResourceGovernance,
    OperationalControl,
    Audit,
    Custom(String),
}

impl AuthorityScope {
    /// Copies the scope.
    pub fn copy(&self) -> (r: Self)
        ensures
            r == *self,
    {
        match self {
            AuthorityScope::AllOperations => AuthorityScope::AllOperations,
            AuthorityScope::ResourceGovernance => AuthorityScope::ResourceGovernance,
            AuthorityScope::OperationalControl => AuthorityScope::OperationalControl,
            AuthorityScope::Audit => AuthorityScope::Audit,
            AuthorityScope::Custom(s) => AuthorityScope::Custom(s.clone()),
        }
    }
}

/// Authority metadata attached to System 3 decisions.
#[derive(Debug, PartialEq, Eq)]
pub struct ControlAuthority {
    pub authority_id: String,
    pub issued_by: Option<VsmAddress>,
    pub scope: AuthorityScope,
    pub reason: Option<String>,
}

/// The plain-value view of `ControlAuthority`.
pub struct ControlAuthorityModel {
    pub authority_id: Seq<char>,
    pub issued_by: Option<VsmAddressModel>,
    pub scope: AuthorityScope,
    pub reason: Option<Seq<char>>,
}

impl View for ControlAuthority {
    type V = ControlAuthorityModel;

    open spec fn view(&self) -> ControlAuthorityModel {
        ControlAuthorityModel {
            authority_id: self.authority_id@,
            issued_by: opt_address(self.issued_by),
            scope: self.scope,
            reason: opt_text(self.reason),
        }
    }
}

impl Duplicate for ControlAuthority {
    fn duplicate(&self) -> (r: Self) {
        ControlAuthority {
            authority_id: self.authority_id.clone(),
            issued_by: copy_address(&self.issued_by),
            scope: self.scope.copy(),
            reason: copy_opt(&self.reason),
        }
    }
}

impl ControlAuthority {
    /// Creates an authority record with a generated `authority-` identity.
    pub fn new(scope: AuthorityScope) -> (r: Self)
        ensures
            r.issued_by is None,
            r.scope == scope,
            r.reason is None,
    {
        let id = fresh_uuid();
        ControlAuthority { authority_id: concat2("authority-", id.as_str()), issued_by: None, scope, reason: None }
    }

    /// Adds the issuing framework address.
    pub fn issued_by(self, issued_by: VsmAddress) -> (r: Self)
        ensures
            r.authority_id == self.authority_id,
            r.issued_by == Some(issued_by),
            r.scope == self.scope,
            r.reason == self.reason,
    {
        ControlAuthority { issued_by: Some(issued_by), ..self }
    }

    /// Adds a human-readable authority reason.
    pub fn with_reason(self, reason: String) -> (r: Self)
        ensures
            r.authority_id == self.authority_id,
            r.issued_by == self.issued_by,
            r.scope == self.scope,
            r.reason == Some(reason),
    {
        ControlAuthority { reason: Some(reason), ..self }
    }
}

/// Fills in a missing issuer and sets the scope of an authority record: System 3 stamps
/// every decision it forwards with its own address and the scope it acts under.
pub fn ensure_authority(authority: &mut ControlAuthority, issuer: &VsmAddress, scope: &AuthorityScope)
    ensures
        final(authority).authority_id == old(authority).authority_id,
        final(authority).reason == old(authority).reason,
        final(authority).scope == *scope,
        old(authority).issued_by is None ==> (final(authority).issued_by matches Some(a) && a@ == issuer@),
        old(authority).issued_by is Some ==> final(authority).issued_by == old(authority).issued_by,
{
    if authority.issued_by.is_none() {
        authority.issued_by = Some(issuer.clone());
    }
    authority.scope = scope.copy();
}

/// Typed System 3 resource request.
pub struct ResourceRequest {
    pub metadata: ProtocolMetadata,
    pub request_id: String,
    pub unit_id: Option<String>,
    pub required_capabilities: Vec<String>,
    pub priority: Priority,
    pub reason: String,
    pub requested_at: i64,
    pub expires_at: Option<i64>,
}

/// The plain-value view of `ResourceRequest`.
pub struct ResourceRequestModel {
    pub metadata: ProtocolMetadataModel,
    pub request_id: Seq<char>,
    pub unit_id: Option<Seq<char>>,
    pub required_capabilities: Seq<Seq<char>>,
    pub priority: Priority,
    pub reason: Seq<char>,
    pub requested_at: i64,
    pub expires_at: Option<i64>,
}

impl View for ResourceRequest {
    type V = ResourceRequestModel;

    open spec fn view(&self) -> ResourceRequestModel {
        ResourceRequestModel {
            metadata: self.metadata@,
            request_id: self.request_id@,
            unit_id: opt_text(self.unit_id),
            required_capabilities: texts(self.required_capabilities@),
            priority: self.priority,
            reason: self.reason@,
            requested_at: self.requested_at,
            expires_at: self.expires_at,
        }
    }
}

/// Copies a list of strings.
pub fn copy_texts(v: &Vec<String>) -> (r: Vec<String>)
    ensures
        r@ == v@,
{
    let r = v.clone();
    assert(r@ =~= v@);
    r
}

impl Duplicate for ResourceRequest {
    fn duplicate(&self) -> (r: Self) {
        ResourceRequest {
            metadata: self.metadata.duplicate(),
            request_id: self.request_id.clone(),
            unit_id: copy_opt(&self.unit_id),
            required_capabilities: copy_texts(&self.required_capabilities),
            priority: self.priority,
            reason: self.reason.clone(),
            requested_at: self.requested_at,
            expires_at: self.expires_at,
        }
    }
}

impl ResourceRequest {
    /// Creates a resource request with a generated `resource-request-` identity.
    pub fn new(required_capabilities: Vec<String>, reason: String, now: i64) -> (r: Self)
        ensures
            fresh_metadata(r.metadata@),
            r.unit_id is None,
            r.required_capabilities@ == required_capabilities@,
            r.priority == Priority::Normal,
            r.reason == reason,
            r.requested_at == now,
            r.expires_at is None,
    {
        let id = fresh_uuid();
        ResourceRequest {
            metadata: ProtocolMetadata::new(),
            request_id: concat2("resource-request-", id.as_str()),
            unit_id: None,
            required_capabilities,
            priority: Priority::Normal,
            reason,
            requested_at: now,
            expires_at: None,
        }
    }

    /// Creates a System 3 resource request from a System 1 shortage event.
    pub fn from_shortage(shortage: ResourceShortageRequest, now: i64) -> (r: Self)
        ensures
            r.unit_id is None,
            r.required_capabilities@ == shortage.required_capabilities@,
            r.priority == Priority::Normal,
            r.reason == shortage.reason,
            r.requested_at == now,
            r.expires_at is None,
    {
        ResourceRequest::new(shortage.required_capabilities, shortage.reason, now)
    }

    /// Sets the unit associated with this request.
    pub fn for_unit(self, unit_id: String) -> (r: Self)
        ensures
            r@ == (ResourceRequestModel { unit_id: Some(unit_id@), ..self@ }),
    {
        ResourceRequest { unit_id: Some(unit_id), ..self }
    }
}

/// Resource decision returned by System 3 governance.
#[derive(Debug, Clone, Copy, PartialEq, Eq, Structural)]
pub enum ResourceDecision {
    Grant,
    Deny,
    CounterOffer,
}

/// Resource allocation or denial issued by System 3.
pub struct ResourceAllocation {
    pub metadata: ProtocolMetadata,
    pub allocation_id: String,
    pub request_id: String,
    pub target_unit: Option<String>,
    pub decision: ResourceDecision,
    pub capabilities: Vec<String>,
    pub authority: ControlAuthority,
    pub version: ControlVersion,
    pub reason: Option<String>,
    pub issued_at: i64,
    pub expires_at: Option<i64>,
    pub requires_ack: bool,
}

/// The plain-value view of `ResourceAllocation`.
pub struct ResourceAllocationModel {
    pub metadata: ProtocolMetadataModel,
    pub allocation_id: Seq<char>,
    pub request_id: Seq<char>,
    pub target_unit: Option<Seq<char>>,
    pub decision: ResourceDecision,
    pub capabilities: Seq<Seq<char>>,
    pub authority: ControlAuthorityModel,
    pub version: ControlVersion,
    pub reason: Option<Seq<char>>,
    pub issued_at: i64,
    pub expires_at: Option<i64>,
    pub requires_ack: bool,
}

impl View for ResourceAllocation {
    type V = ResourceAllocationModel;

    open spec fn view(&self) -> ResourceAllocationModel {
        ResourceAllocationModel {
            metadata: self.metadata@,
            allocation_id: self.allocation_id@,
            request_id: self.request_id@,
            target_unit: opt_text(self.target_unit),
            decision: self.decision,
            capabilities: texts(self.capabilities@),
            authority: self.authority@,
            version: self.version,
            reason: opt_text(self.reason),
            issued_at: self.issued_at,
            expires_at: self.expires_at,
            requires_ack: self.requires_ack,
        }
    }
}

impl Duplicate for ResourceAllocation {
    fn duplicate(&self) -> (r: Self) {
        ResourceAllocation {
            metadata: self.metadata.duplicate(),
            allocation_id: self.allocation_id.clone(),
            request_id: self.request_id.clone(),
            target_unit: copy_opt(&self.target_unit),
            decision: self.decision,
            capabilities: copy_texts(&self.capabilities),
            authority: self.authority.duplicate(),
            version: self.version,
            reason: copy_opt(&self.reason),
            issued_at: self.issued_at,
            expires_at: self.expires_at,
            requires_ack: self.requires_ack,
        }
    }
}

impl ResourceAllocation {
    /// Creates an allocation decision for a resource request; it needs acknowledgement.
    pub fn new(request: &ResourceRequest, decision: ResourceDecision, now: i64) -> (r: Self)
        ensures
            child_of(r.metadata@, request.metadata@),
            r.request_id == request.request_id,
            r.target_unit == request.unit_id,
            r.decision == decision,
            r.capabilities@ == request.required_capabilities@,
            r.authority.scope == AuthorityScope::ResourceGovernance,
            r.authority.issued_by is None,
            r.version.value() == 1,
            r.reason is None,
            r.issued_at == now,
            r.expires_at == request.expires_at,
            r.requires_ack,
    {
        let id = fresh_uuid();
        ResourceAllocation {
            metadata: request.metadata.child(),
            allocation_id: concat2("allocation-", id.as_str()),
            request_id: request.request_id.clone(),
            target_unit: copy_opt(&request.unit_id),
            decision,
            capabilities: copy_texts(&request.required_capabilities),
            authority: ControlAuthority::new(AuthorityScope::ResourceGovernance),
            version: ControlVersion::initial(),
            reason: None,
            issued_at: now,
            expires_at: request.expires_at,
            requires_ack: true,
        }
    }

    /// Adds a human-readable decision reason.
    pub fn with_reason(self, reason: String) -> (r: Self)
        ensures
            r@ == (ResourceAllocationModel { reason: Some(reason@), ..self@ }),
    {
        ResourceAllocation { reason: Some(reason), ..self }
    }

    /// Marks whether this allocation requires acknowledgement.
    pub fn with_required_ack(self, requires_ack: bool) -> (r: Self)
        ensures
            r@ == (ResourceAllocationModel { requires_ack, ..self@ }),
    {
        ResourceAllocation { requires_ack, ..self }
    }
}

/// Acknowledgement status for System 3 decisions.
#[derive(Debug, Clone, Copy, PartialEq, Eq, Structural)]
pub enum ControlAckStatus {
    Accepted,
    Rejected,
    Applied,
    Failed,
    Expired,
}

impl ControlAckStatus {
    /// Accepted or applied.
    pub open spec fn succeeded(self) -> bool {
        self == ControlAckStatus::Accepted || self == ControlAckStatus::Applied
    }

    /// Returns true when the target accepted or applied the decision.
    pub fn is_success(self) -> (b: bool)
        ensures
            b == self.succeeded(),
    {
        match self {
            ControlAckStatus::Accepted | ControlAckStatus::Applied => true,
            _ => false,
        }
    }
}

/// Acknowledgement for a resource allocation decision.
pub struct ResourceAllocationAcknowledgement {
    pub metadata: ProtocolMetadata,
    pub allocation_id: String,
    pub target_unit: Option<String>,
    pub status: ControlAckStatus,
    pub reason: Option<String>,
    pub observed_at: i64,
}

/// The plain-value view of `ResourceAllocationAcknowledgement`.
pub struct ResourceAllocationAcknowledgementModel {
    pub metadata: ProtocolMetadataModel,
    pub allocation_id: Seq<char>,
    pub target_unit: Option<Seq<char>>,
    pub status: ControlAckStatus,
    pub reason: Option<Seq<char>>,
    pub observed_at: i64,
}

impl View for ResourceAllocationAcknowledgement {
    type V = ResourceAllocationAcknowledgementModel;

    open spec fn view(&self) -> ResourceAllocationAcknowledgementModel {
        ResourceAllocationAcknowledgementModel {
            metadata: self.metadata@,
            allocation_id: self.allocation_id@,
            target_unit: opt_text(self.target_unit),
            status: self.status,
            reason: opt_text(self.reason),
            observed_at: self.observed_at,
        }
    }
}

impl Duplicate for ResourceAllocationAcknowledgement {
    fn duplicate(&self) -> (r: Self) {
        ResourceAllocationAcknowledgement {
            metadata: self.metadata.duplicate(),
            allocation_id: self.allocation_id.clone(),
            target_unit: copy_opt(&self.target_unit),
            status: self.status,
            reason: copy_opt(&self.reason),
            observed_at: self.observed_at,
        }
    }
}

impl ResourceAllocationAcknowledgement {
    /// Records an accepted allocation acknowledgement.
    pub fn accepted(allocation: &ResourceAllocation, now: i64) -> (r: Self)
        ensures
            child_of(r.metadata@, allocation.metadata@),
            r@ == (ResourceAllocationAcknowledgementModel {
                metadata: r.metadata@,
                allocation_id: allocation.allocation_id@,
                target_unit: opt_text(allocation.target_unit),
                status: ControlAckStatus::Accepted,
                reason: None,
                observed_at: now,
            }),
    {
        ResourceAllocationAcknowledgement {
            metadata: allocation.metadata.child(),
            allocation_id: allocation.allocation_id.clone(),
            target_unit: copy_opt(&allocation.target_unit),
            status: ControlAckStatus::Accepted,
            reason: None,
            observed_at: now,
        }
    }
}

/// Framework-owned operational directive category.
#[derive(Debug, PartialEq, Eq)]
pub enum OperationalDirectiveKind {
    AllocateResources,
    Constrain,
    Drain,
    Resume,
    Stop,
    Remediate,
    Custom(String),
}

impl OperationalDirectiveKind {
    /// Copies the kind.
    pub fn copy(&self) -> (r: Self)
        ensures
            r == *self,
    {
        match self {
            OperationalDirectiveKind::AllocateResources => OperationalDirectiveKind::AllocateResources,
            OperationalDirectiveKind::Constrain => OperationalDirectiveKind::Constrain,
            OperationalDirectiveKind::Drain => OperationalDirectiveKind::Drain,
            OperationalDirectiveKind::Resume => OperationalDirectiveKind::Resume,
            OperationalDirectiveKind::Stop => OperationalDirectiveKind::Stop,
            OperationalDirectiveKind::Remediate => OperationalDirectiveKind::Remediate,
            OperationalDirectiveKind::Custom(s) => OperationalDirectiveKind::Custom(s.clone()),
        }
    }
}

/// Operational control directive issued by System 3.
pub struct OperationalDirective {
    pub metadata: ProtocolMetadata,
    pub directive_id: String,
    pub kind: OperationalDirectiveKind,
    pub target_units: Vec<String>,
    pub summary: String,
    pub authority: ControlAuthority,
    pub version: ControlVersion,
    pub issued_at: i64,
    pub expires_at: Option<i64>,
    pub requires_ack: bool,
}

/// The plain-value view of `OperationalDirective`.
pub struct OperationalDirectiveModel {
    pub metadata: ProtocolMetadataModel,
    pub directive_id: Seq<char>,
    pub kind: OperationalDirectiveKind,
    pub target_units: Seq<Seq<char>>,
    pub summary: Seq<char>,
    pub authority: ControlAuthorityModel,
    pub version: ControlVersion,
    pub issued_at: i64,
    pub expires_at: Option<i64>,
    pub requires_ack: bool,
}

impl View for OperationalDirective {
    type V = OperationalDirectiveModel;

    open spec fn view(&self) -> OperationalDirectiveModel {
        OperationalDirectiveModel {
            metadata: self.metadata@,
            directive_id: self.directive_id@,
            kind: self.kind,
            target_units: texts(self.target_units@),
            summary: self.summary@,
            authority: self.authority@,
            version: self.version,
            issued_at: self.issued_at,
            expires_at: self.expires_at,
            requires_ack: self.requires_ack,
        }
    }
}

impl Duplicate for OperationalDirective {
    fn duplicate(&self) -> (r: Self) {
        OperationalDirective {
            metadata: self.metadata.duplicate(),
            directive_id: self.directive_id.clone(),
            kind: self.kind.copy(),
            target_units: copy_texts(&self.target_units),
            summary: self.summary.clone(),
            authority: self.authority.duplicate(),
            version: self.version,
            issued_at: self.issued_at,
            expires_at: self.expires_at,
            requires_ack: self.requires_ack,
        }
    }
}

impl OperationalDirective {
    /// Creates a directive with a generated `directive-` identity; it needs acknowledgement.
    pub fn new(kind: OperationalDirectiveKind, target_units: Vec<String>, summary: String, now: i64) -> (r: Self)
        ensures
            fresh_metadata(r.metadata@),
            r.kind == kind,
            r.target_units@ == target_units@,
            r.summary == summary,
            r.authority.scope == AuthorityScope::OperationalControl,
            r.authority.issued_by is None,
            r.version.value() == 1,
            r.issued_at == now,
            r.expires_at is None,
            r.requires_ack,
    {
        let id = fresh_uuid();
        OperationalDirective {
            metadata: ProtocolMetadata::new(),
            directive_id: concat2("directive-", id.as_str()),
            kind,
            target_units,
            summary,
            authority: ControlAuthority::new(AuthorityScope::OperationalControl),
            version: ControlVersion::initial(),
            issued_at: now,
            expires_at: None,
            requires_ack: true,
        }
    }

    /// Marks whether this directive requires acknowledgement.
    pub fn with_required_ack(self, requires_ack: bool) -> (r: Self)
        ensures
            r@ == (OperationalDirectiveModel { requires_ack, ..self@ }),
    {
        OperationalDirective { requires_ack, ..self }
    }
}

/// Acknowledgement for an operational directive.
pub struct DirectiveAcknowledgement {
    pub metadata: ProtocolMetadata,
    pub directive_id: String,
    pub unit_id: String,
    pub status: ControlAckStatus,
    pub reason: Option<String>,
    pub observed_at: i64,
}

/// The plain-value view of `DirectiveAcknowledgement`.
pub struct DirectiveAcknowledgementModel {
    pub metadata: ProtocolMetadataModel,
    pub directive_id: Seq<char>,
    pub unit_id: Seq<char>,
    pub status: ControlAckStatus,
    pub reason: Option<Seq<char>>,
    pub observed_at: i64,
}

impl View for DirectiveAcknowledgement {
    type V = DirectiveAcknowledgementModel;

    open spec fn view(&self) -> DirectiveAcknowledgementModel {
        DirectiveAcknowledgementModel {
            metadata: self.metadata@,
            directive_id: self.directive_id@,
            unit_id: self.unit_id@,
            status: self.status,
            reason: opt_text(self.reason),
            observed_at: self.observed_at,
        }
    }
}

impl Duplicate for DirectiveAcknowledgement {
    fn duplicate(&self) -> (r: Self) {
        DirectiveAcknowledgement {
            metadata: self.metadata.duplicate(),
            directive_id: self.directive_id.clone(),
            unit_id: self.unit_id.clone(),
            status: self.status,
            reason: copy_opt(&self.reason),
            observed_at: self.observed_at,
        }
    }
}

impl DirectiveAcknowledgement {
    fn make(
        directive: &OperationalDirective,
        unit_id: String,
        status: ControlAckStatus,
        reason: Option<String>,
        now: i64,
    ) -> (r: Self)
        ensures
            child_of(r.metadata@, directive.metadata@),
            r.directive_id == directive.directive_id,
            r.unit_id == unit_id,
            r.status == status,
            r.reason == reason,
            r.observed_at == now,
    {
        DirectiveAcknowledgement { metadata: directive.metadata.child(), directive_id: directive.directive_id.clone(), unit_id, status, reason, observed_at: now }
    }

    /// Creates an accepted directive acknowledgement.
    pub fn accepted(directive: &OperationalDirective, unit_id: String, now: i64) -> (r: Self)
        ensures
            r.directive_id == directive.directive_id,
            r.unit_id == unit_id,
            r.status == ControlAckStatus::Accepted,
            r.reason is None,
            r.observed_at == now,
    {
        DirectiveAcknowledgement::make(directive, unit_id, ControlAckStatus::Accepted, None, now)
    }

    /// Creates a rejected directive acknowledgement.
    pub fn rejected(directive: &OperationalDirective, unit_id: String, reason: String, now: i64) -> (r: Self)
        ensures
            r.directive_id == directive.directive_id,
            r.unit_id == unit_id,
            r.status == ControlAckStatus::Rejected,
            r.reason == Some(reason),
            r.observed_at == now,
    {
        DirectiveAcknowledgement::make(directive, unit_id, ControlAckStatus::Rejected, Some(reason), now)
    }

    /// Creates a failed directive acknowledgement.
    pub fn failed(directive: &OperationalDirective, unit_id: String, reason: String, now: i64) -> (r: Self)
        ensures
            r.directive_id == directive.directive_id,
            r.unit_id == unit_id,
            r.status == ControlAckStatus::Failed,
            r.reason == Some(reason),
            r.observed_at == now,
    {
        DirectiveAcknowledgement::make(directive, unit_id, ControlAckStatus::Failed, Some(reason), now)
    }
}

/// Operational summary published by System 3.
pub struct OperationalSummary {
    pub metadata: ProtocolMetadata,
    pub summary_id: String,
    pub resource_request_count: usize,
    pub allocation_count: usize,
    pub directive_count: usize,
    pub failed_acknowledgement_count: usize,
    pub generated_at: i64,
    pub affected_units: Vec<String>,
}

/// The plain-value view of `OperationalSummary`.
pub struct OperationalSummaryModel {
    pub metadata: ProtocolMetadataModel,
    pub summary_id: Seq<char>,
    pub resource_request_count: usize,
    pub allocation_count: usize,
    pub directive_count: usize,
    pub failed_acknowledgement_count: usize,
    pub generated_at: i64,
    pub affected_units: Seq<Seq<char>>,
}

impl View for OperationalSummary {
    type V = OperationalSummaryModel;

    open spec fn view(&self) -> OperationalSummaryModel {
        OperationalSummaryModel {
            metadata: self.metadata@,
            summary_id: self.summary_id@,
            resource_request_count: self.resource_request_count,
            allocation_count: self.allocation_count,
            directive_count: self.directive_count,
            failed_acknowledgement_count: self.failed_acknowledgement_count,
            generated_at: self.generated_at,
            affected_units: texts(self.affected_units@),
        }
    }
}

impl Duplicate for OperationalSummary {
    fn duplicate(&self) -> (r: Self) {
        OperationalSummary {
            metadata: self.metadata.duplicate(),
            summary_id: self.summary_id.clone(),
            resource_request_count: self.resource_request_count,
            allocation_count: self.allocation_count,
            directive_count: self.directive_count,
            failed_acknowledgement_count: self.failed_acknowledgement_count,
            generated_at: self.generated_at,
            affected_units: copy_texts(&self.affected_units),
        }
    }
}

/// Audit authorization supplied to System 3*.
#[derive(Debug, PartialEq, Eq)]
pub struct AuditAuthorization {
    pub authority: ControlAuthority,
    pub approved: bool,
    pub purpose: String,
}

impl AuditAuthorization {
    /// Creates an approved audit authorization under audit scope.
    pub fn approved(purpose: String) -> (r: Self)
        ensures
            r.authority.scope == AuthorityScope::Audit,
            r.authority.issued_by is None,
            r.authority.reason is None,
            r.approved,
            r.purpose == purpose,
    {
        AuditAuthorization { authority: ControlAuthority::new(AuthorityScope::Audit), approved: true, purpose }
    }

    /// Creates a rejected audit authorization under audit scope.
    pub fn rejected(purpose: String) -> (r: Self)
        ensures
            r.authority.scope == AuthorityScope::Audit,
            r.authority.issued_by is None,
            r.authority.reason is None,
            !r.approved,
            r.purpose == purpose,
    {
        AuditAuthorization { authority: ControlAuthority::new(AuthorityScope::Audit), approved: false, purpose }
    }
}

/// Sensitive-data boundary for System 3* evidence collection.
#[derive(Debug, Clone, Copy, PartialEq, Eq, Structural)]
pub struct AuditDataBoundary {
    pub include_snapshots: bool,
    pub max_evidence_items: Option<usize>,
}

impl AuditDataBoundary {
    /// Creates a boundary that excludes unit snapshots.
    pub fn without_snapshots() -> (r: Self)
        ensures
            !r.include_snapshots,
            r.max_evidence_items is None,
    {
        AuditDataBoundary { include_snapshots: false, max_evidence_items: None }
    }

    /// Creates a boundary that allows unit snapshots.
    pub fn with_snapshots() -> (r: Self)
        ensures
            r.include_snapshots,
            r.max_evidence_items is None,
    {
        AuditDataBoundary { include_snapshots: true, max_evidence_items: None }
    }
}

impl Default for AuditDataBoundary {
    fn default() -> (r: Self)
        ensures
            !r.include_snapshots,
            r.max_evidence_items is None,
    {
        AuditDataBoundary::without_snapshots()
    }
}

/// Typed audit request owned by System 3*.
pub struct System3AuditRequest {
    pub metadata: ProtocolMetadata,
    pub audit_id: String,
    pub scope: AuditScope<String>,
    pub authorization: AuditAuthorization,
    pub boundary: AuditDataBoundary,
    pub requested_at: i64,
}

impl System3AuditRequest {
    /// Creates an authorized audit request with a generated `audit-` identity.
    pub fn new(scope: AuditScope<String>, purpose: String, now: i64) -> (r: Self)
        ensures
            fresh_metadata(r.metadata@),
            r.scope == scope,
            r.authorization.approved,
            r.authorization.purpose == purpose,
            r.authorization.authority.scope == AuthorityScope::Audit,
            !r.boundary.include_snapshots,
            r.boundary.max_evidence_items is None,
            r.requested_at == now,
    {
        let id = fresh_uuid();
        System3AuditRequest {
            metadata: ProtocolMetadata::new(),
            audit_id: concat2("audit-", id.as_str()),
            scope,
            authorization: AuditAuthorization::approved(purpose),
            boundary: AuditDataBoundary::without_snapshots(),
            requested_at: now,
        }
    }
}

/// Severity assigned to a System 3* finding.
#[derive(Debug, Clone, Copy, PartialEq, Eq, Structural)]
pub enum AuditSeverity {
    Info,
    Low,
    Medium,
    High,
    Critical,
}

/// System 3* audit finding.
#[derive(Debug, PartialEq, Eq)]
pub struct AuditFinding {
    pub metadata: ProtocolMetadata,
    pub finding_id: String,
    pub unit_id: Option<String>,
    pub severity: AuditSeverity,
    pub category: String,
    pub summary: String,
    pub observed_at: i64,
}

impl Duplicate for AuditFinding {
    fn duplicate(&self) -> (r: Self) {
        AuditFinding {
            metadata: self.metadata.duplicate(),
            finding_id: self.finding_id.clone(),
            unit_id: copy_opt(&self.unit_id),
            severity: self.severity,
            category: self.category.clone(),
            summary: self.summary.clone(),
            observed_at: self.observed_at,
        }
    }
}

/// The plain-value view of `AuditFinding`.
pub struct AuditFindingModel {
    pub metadata: ProtocolMetadataModel,
    pub finding_id: Seq<char>,
    pub unit_id: Option<Seq<char>>,
    pub severity: AuditSeverity,
    pub category: Seq<char>,
    pub summary: Seq<char>,
    pub observed_at: i64,
}

impl View for AuditFinding {
    type V = AuditFindingModel;

    open spec fn view(&self) -> AuditFindingModel {
        AuditFindingModel {
            metadata: self.metadata@,
            finding_id: self.finding_id@,
            unit_id: crate::protocol::system2::opt_text(self.unit_id),
            severity: self.severity,
            category: self.category@,
            summary: self.summary@,
            observed_at: self.observed_at,
        }
    }
}

impl AuditFinding {
    /// Creates a finding with a generated `finding-` identity.
    pub fn new(severity: AuditSeverity, category: String, summary: String, now: i64) -> (r: Self)
        ensures
            fresh_metadata(r.metadata@),
            r.unit_id is None,
            r.severity == severity,
            r.category == category,
            r.summary == summary,
            r.observed_at == now,
    {
        let id = fresh_uuid();
        AuditFinding {
            metadata: ProtocolMetadata::new(),
            finding_id: concat2("finding-", id.as_str()),
            unit_id: None,
            severity,
            category,
            summary,
            observed_at: now,
        }
    }

    /// Associates the finding with a unit.
    pub fn for_unit(self, unit_id: String) -> (r: Self)
        ensures
            r == (AuditFinding { unit_id: Some(unit_id), ..self }),
    {
        AuditFinding { unit_id: Some(unit_id), ..self }
    }
}

/// Remediation lifecycle state.
#[derive(Debug, Clone, Copy, PartialEq, Eq, Structural)]
pub enum RemediationStatus {
    Proposed,
    Accepted,
    InProgress,
    Verified,
    Rejected,
}

/// Remediation proposed by System 3*.
pub struct RemediationAction {
    pub metadata: ProtocolMetadata,
    pub remediation_id: String,
    pub finding_id: String,
    pub target_units: Vec<String>,
    pub summary: String,
    pub status: RemediationStatus,
}

/// The plain-value view of `RemediationAction`.
pub struct RemediationActionModel {
    pub metadata: ProtocolMetadataModel,
    pub remediation_id: Seq<char>,
    pub finding_id: Seq<char>,
    pub target_units: Seq<Seq<char>>,
    pub summary: Seq<char>,
    pub status: RemediationStatus,
}

impl View for RemediationAction {
    type V = RemediationActionModel;

    open spec fn view(&self) -> RemediationActionModel {
        RemediationActionModel {
            metadata: self.metadata@,
            remediation_id: self.remediation_id@,
            finding_id: self.finding_id@,
            target_units: texts(self.target_units@),
            summary: self.summary@,
            status: self.status,
        }
    }
}

impl Duplicate for RemediationAction {
    fn duplicate(&self) -> (r: Self) {
        RemediationAction {
            metadata: self.metadata.duplicate(),
            remediation_id: self.remediation_id.clone(),
            finding_id: self.finding_id.clone(),
            target_units: copy_texts(&self.target_units),
            summary: self.summary.clone(),
            status: self.status,
        }
    }
}

impl RemediationAction {
    /// Creates a proposed remediation for one finding, with a generated `remediation-` identity.
    pub fn new(finding_id: String, target_units: Vec<String>, summary: String) -> (r: Self)
        ensures
            fresh_metadata(r.metadata@),
            r.finding_id == finding_id,
            r.target_units@ == target_units@,
            r.summary == summary,
            r.status == RemediationStatus::Proposed,
    {
        let id = fresh_uuid();
        RemediationAction {
            metadata: ProtocolMetadata::new(),
            remediation_id: concat2("remediation-", id.as_str()),
            finding_id,
            target_units,
            summary,
            status: RemediationStatus::Proposed,
        }
    }
}

/// System 3* audit response.
pub struct AuditResponse {
    pub metadata: ProtocolMetadata,
    pub audit_id: String,
    pub findings: Vec<AuditFinding>,
    pub remediations: Vec<RemediationAction>,
    pub completed_at: i64,
}

/// The plain-value view of `AuditResponse`.
pub struct AuditResponseModel {
    pub metadata: ProtocolMetadataModel,
    pub audit_id: Seq<char>,
    pub findings: Seq<AuditFindingModel>,
    pub remediations: Seq<RemediationActionModel>,
    pub completed_at: i64,
}

impl View for AuditResponse {
    type V = AuditResponseModel;

    open spec fn view(&self) -> AuditResponseModel {
        AuditResponseModel {
            metadata: self.metadata@,
            audit_id: self.audit_id@,
            findings: view_seq(self.findings@),
            remediations: view_seq(self.remediations@),
            completed_at: self.completed_at,
        }
    }
}

impl Duplicate for AuditResponse {
    fn duplicate(&self) -> (r: Self) {
        AuditResponse {
            metadata: self.metadata.duplicate(),
            audit_id: self.audit_id.clone(),
            findings: crate::dup::dup_vec(&self.findings),
            remediations: crate::dup::dup_vec(&self.remediations),
            completed_at: self.completed_at,
        }
    }
}

impl AuditResponse {
    /// Creates an audit response for a request from findings and remediations.
    pub fn new(
        request: &System3AuditRequest,
        findings: Vec<AuditFinding>,
        remediations: Vec<RemediationAction>,
        now: i64,
    ) -> (r: Self)
        ensures
            child_of(r.metadata@, request.metadata@),
            r.audit_id == request.audit_id,
            r.findings@ == findings@,
            r.remediations@ == remediations@,
            r.completed_at == now,
    {
        AuditResponse { metadata: request.metadata.child(), audit_id: request.audit_id.clone(), findings, remediations, completed_at: now }
    }
}

/// One System 3 control cycle.
pub struct System3ControlCycle {
    pub metadata: ProtocolMetadata,
    pub resource_requests: Vec<ResourceRequest>,
    pub performance: Vec<crate::kernel::system1::PerformanceObservation>,
    pub allocations: Vec<ResourceAllocation>,
    pub allocation_acknowledgements: Vec<ResourceAllocationAcknowledgement>,
    pub directives: Vec<OperationalDirective>,
    pub directive_acknowledgements: Vec<DirectiveAcknowledgement>,
    pub summaries: Vec<OperationalSummary>,
}

/// System 3 runtime snapshot.
pub struct System3Snapshot {
    pub resource_requests: Vec<ResourceRequest>,
    pub performance: Vec<crate::kernel::system1::PerformanceObservation>,
    pub allocations: Vec<ResourceAllocation>,
    pub allocation_acknowledgements: Vec<ResourceAllocationAcknowledgement>,
    pub directives: Vec<OperationalDirective>,
    pub directive_acknowledgements: Vec<DirectiveAcknowledgement>,
    pub summaries: Vec<OperationalSummary>,
    pub audit_responses: Vec<AuditResponse>,
    pub last_control_cycle_at: Option<i64>,
    pub last_audit_at: Option<i64>,
}

} // verus!

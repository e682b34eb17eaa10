//! System 5 policy state: decision normalization and the policy history.
//!
//! The identity, values, evaluation, decision and crisis roles are consulted by
//! the actor layer; their results are normalized and recorded here.

use vstd::prelude::*;
use crate::protocol::envelope::{set_source_address, sourced};

use crate::dup::{dup_vec, extend_dup, view_seq, Duplicate};
use crate::protocol::address::{opt_address, RuntimeId, VsmAddress, VsmAddressModel};
use crate::protocol::system3::OperationalSummaryModel;
use crate::kernel::system4::ProposalRoutingModel;
use crate::protocol::system5::{
    dup_opt, evidence_of_proposal, evidence_of_summary, opt_view, CrisisResponse, CrisisResponseModel, CrisisSignal, DecisionEvidence,
    DecisionEvidenceModel, DecisionRecord, DecisionRecordModel, DecisionRequest, IdentityRecord,
    IdentityRecordModel, PolicyAuthorityModel, PolicyDirective, PolicyDirectiveAcknowledgement,
    PolicyDirectiveAcknowledgementModel, PolicyDirectiveModel, PolicyEscalationModel, System5Snapshot,
    ValuesEvaluation, ValuesEvaluationModel,
};
use crate::text::concat3;

verus! {

/// A policy authority with the issuer filled in when it was missing.
pub open spec fn issued(a: PolicyAuthorityModel, issuer: VsmAddressModel) -> PolicyAuthorityModel {
    PolicyAuthorityModel { issued_by: if a.issued_by is None { Some(issuer) } else { a.issued_by }, ..a }
}

/// A directive as System 5 issues it: it names the issuer as its source, its authority names an issuer and its version is
/// the authority's policy version.
pub open spec fn normalized_directive(d: PolicyDirectiveModel, issuer: VsmAddressModel) -> PolicyDirectiveModel {
    PolicyDirectiveModel {
        metadata: sourced(d.metadata, issuer),
        authority: issued(d.authority, issuer),
        version: d.authority.policy_version,
        ..d
    }
}

/// Every directive normalized, in order.
pub open spec fn normalized_directives(ds: Seq<PolicyDirectiveModel>, issuer: VsmAddressModel) -> Seq<PolicyDirectiveModel> {
    ds.map_values(|d: PolicyDirectiveModel| normalized_directive(d, issuer))
}

/// Normalizing a directive that System 5 already normalized changes nothing.
pub proof fn lemma_directive_normalization_idempotent(d: PolicyDirectiveModel, issuer: VsmAddressModel)
    ensures
        normalized_directive(normalized_directive(d, issuer), issuer) == normalized_directive(d, issuer),
{
}

/// Normalizing directives twice is the same as normalizing them once.
pub proof fn lemma_directives_normalization_idempotent(ds: Seq<PolicyDirectiveModel>, issuer: VsmAddressModel)
    ensures
        normalized_directives(normalized_directives(ds, issuer), issuer) == normalized_directives(ds, issuer),
{
    assert forall|i: int| 0 <= i < ds.len() implies #[trigger] normalized_directives(
        normalized_directives(ds, issuer),
        issuer,
    )[i] == normalized_directives(ds, issuer)[i] by {
        lemma_directive_normalization_idempotent(ds[i], issuer);
    }
    assert(normalized_directives(normalized_directives(ds, issuer), issuer) =~= normalized_directives(ds, issuer));
}

/// Normalizes a directive issued by System 5.
pub fn normalize_directive(directive: &mut PolicyDirective, issuer: &VsmAddress)
    ensures
        final(directive)@ == normalized_directive(old(directive)@, issuer@),
{
    set_source_address(&mut directive.metadata, issuer);
    if directive.authority.issued_by.is_none() {
        directive.authority.issued_by = Some(issuer.clone());
    }
    directive.version = directive.authority.policy_version;
}

fn normalize_all(directives: &mut Vec<PolicyDirective>, issuer: &VsmAddress)
    ensures
        view_seq(final(directives)@) == normalized_directives(view_seq(old(directives)@), issuer@),
{
    let ghost orig = directives@;
    let n = directives.len();
    let mut i: usize = 0;
    while i < n
        invariant
            n == directives@.len(),
            n == orig.len(),
            i <= n,
            forall|k: int| 0 <= k < i ==> #[trigger] directives@[k]@ == normalized_directive(orig[k]@, issuer@),
            forall|k: int| i <= k < n ==> #[trigger] directives@[k]@ == orig[k]@,
        decreases n - i,
    {
        let mut d = directives[i].duplicate();
        normalize_directive(&mut d, issuer);
        directives.set(i, d);
        i = i + 1;
    }
    assert(view_seq(directives@) =~= normalized_directives(view_seq(orig), issuer@));
}

/// A decision as System 5 records it: gaps are filled from the request and the
/// evaluation, the versions are those of the evaluation and authority, the record and
/// its authority name the issuer and every directive is normalized.
pub open spec fn normalized_decision(
    d: DecisionRecordModel,
    request_id: Seq<char>,
    subject: Seq<char>,
    request_evidence: Seq<DecisionEvidenceModel>,
    evaluation: ValuesEvaluationModel,
    issuer: VsmAddressModel,
) -> DecisionRecordModel {
    DecisionRecordModel {
        metadata: sourced(d.metadata, issuer),
        request_id: if d.request_id.len() == 0 { request_id } else { d.request_id },
        subject: if d.subject.len() == 0 { subject } else { d.subject },
        evidence: if d.evidence.len() == 0 { request_evidence } else { d.evidence },
        evaluation: if d.evaluation is None { Some(evaluation) } else { d.evaluation },
        identity_version: evaluation.identity_version,
        values_version: evaluation.values_version,
        policy_version: d.authority.policy_version,
        authority: issued(d.authority, issuer),
        directives: normalized_directives(d.directives, issuer),
        ..d
    }
}

/// Normalizing a decision that System 5 already normalized, against the same request
/// and evaluation, changes nothing.
pub proof fn lemma_decision_normalization_idempotent(
    d: DecisionRecordModel,
    request_id: Seq<char>,
    subject: Seq<char>,
    request_evidence: Seq<DecisionEvidenceModel>,
    evaluation: ValuesEvaluationModel,
    issuer: VsmAddressModel,
)
    ensures
        ({
            let once = normalized_decision(d, request_id, subject, request_evidence, evaluation, issuer);
            normalized_decision(once, request_id, subject, request_evidence, evaluation, issuer) == once
        }),
{
    lemma_directives_normalization_idempotent(d.directives, issuer);
}

/// Normalizes the decision policy's decision for a request.
pub fn normalize_decision(
    decision: &mut DecisionRecord,
    request: &DecisionRequest,
    evaluation: &ValuesEvaluation,
    issuer: &VsmAddress,
)
    ensures
        final(decision)@ == normalized_decision(
            old(decision)@,
            request.request_id@,
            request.subject@,
            view_seq(request.evidence@),
            evaluation@,
            issuer@,
        ),
{
    if decision.request_id.as_str().is_empty() {
        decision.request_id = request.request_id.clone();
    }
    if decision.subject.as_str().is_empty() {
        decision.subject = request.subject.clone();
    }
    if decision.evidence.len() == 0 {
        decision.evidence = dup_vec(&request.evidence);
    }
    if decision.evaluation.is_none() {
        decision.evaluation = Some(evaluation.duplicate());
    }
    decision.identity_version = evaluation.identity_version;
    decision.values_version = evaluation.values_version;
    decision.policy_version = decision.authority.policy_version;
    set_source_address(&mut decision.metadata, issuer);
    if decision.authority.issued_by.is_none() {
        decision.authority.issued_by = Some(issuer.clone());
    }
    normalize_all(&mut decision.directives, issuer);
}

/// A crisis response as System 5 records it: it and its decision name the issuer as
/// their source, it answers the signal, its decision names an issuer and carries the authority's policy version, and the response
/// carries the decision's normalized directives and escalations.
pub open spec fn normalized_response(r: CrisisResponseModel, signal_id: Seq<char>, issuer: VsmAddressModel) -> CrisisResponseModel {
    let decision = DecisionRecordModel {
        metadata: sourced(r.decision.metadata, issuer),
        authority: issued(r.decision.authority, issuer),
        policy_version: r.decision.authority.policy_version,
        directives: normalized_directives(r.decision.directives, issuer),
        ..r.decision
    };
    CrisisResponseModel {
        metadata: sourced(r.metadata, issuer),
        signal_id,
        decision,
        directives: normalized_directives(decision.directives, issuer),
        escalations: decision.escalations,
        ..r
    }
}

/// Normalizes the crisis policy's response to a signal.
pub fn normalize_crisis_response(response: &mut CrisisResponse, signal: &CrisisSignal, issuer: &VsmAddress)
    ensures
        final(response)@ == normalized_response(old(response)@, signal.signal_id@, issuer@),
{
    response.signal_id = signal.signal_id.clone();
    set_source_address(&mut response.metadata, issuer);
    set_source_address(&mut response.decision.metadata, issuer);
    if response.decision.authority.issued_by.is_none() {
        response.decision.authority.issued_by = Some(issuer.clone());
    }
    response.decision.policy_version = response.decision.authority.policy_version;
    normalize_all(&mut response.decision.directives, issuer);
    let mut directives = dup_vec(&response.decision.directives);
    normalize_all(&mut directives, issuer);
    response.directives = directives;
    response.escalations = dup_vec(&response.decision.escalations);
}

/// The evidence a request carries after System 5 adds what its operational summaries
/// show, then what its adaptation proposals show, each in order.
pub open spec fn enriched_evidence(
    before: Seq<DecisionEvidenceModel>,
    after: Seq<DecisionEvidenceModel>,
    summaries: Seq<OperationalSummaryModel>,
    proposals: Seq<ProposalRoutingModel>,
) -> bool {
    &&& after.len() == before.len() + summaries.len() + proposals.len()
    &&& after.take(before.len() as int) == before
    &&& forall|i: int| 0 <= i < summaries.len() ==> evidence_of_summary(#[trigger] after[before.len() + i], summaries[i])
    &&& forall|i: int|
        0 <= i < proposals.len() ==> evidence_of_proposal(
            #[trigger] after[before.len() + summaries.len() + i],
            proposals[i],
        )
}

/// Adds one piece of System 3 evidence per operational summary and one piece of System 4
/// evidence per adaptation proposal to the request.
pub fn enrich_request_with_context(request: &mut DecisionRequest)
    ensures
        enriched_evidence(
            view_seq(old(request).evidence@),
            view_seq(final(request).evidence@),
            view_seq(old(request).operational_summaries@),
            view_seq(old(request).adaptation_proposals@),
        ),
        final(request).request_id == old(request).request_id,
        final(request).subject == old(request).subject,
        final(request).alternatives@ == old(request).alternatives@,
        final(request).operational_summaries@ == old(request).operational_summaries@,
        final(request).adaptation_proposals@ == old(request).adaptation_proposals@,
        final(request).review_at == old(request).review_at,
{
    let ghost start = view_seq(request.evidence@);
    let ghost sums = view_seq(request.operational_summaries@);
    let ghost props = view_seq(request.adaptation_proposals@);
    let n = request.operational_summaries.len();
    let mut i: usize = 0;
    while i < n
        invariant
            n == request.operational_summaries@.len(),
            sums == view_seq(request.operational_summaries@),
            props == view_seq(request.adaptation_proposals@),
            i <= n,
            view_seq(request.evidence@).len() == start.len() + i,
            view_seq(request.evidence@).take(start.len() as int) == start,
            forall|k: int|
                0 <= k < i ==> evidence_of_summary(#[trigger] view_seq(request.evidence@)[start.len() + k], sums[k]),
            request.request_id == old(request).request_id,
            request.subject == old(request).subject,
            request.alternatives@ == old(request).alternatives@,
            request.operational_summaries@ == old(request).operational_summaries@,
            request.adaptation_proposals@ == old(request).adaptation_proposals@,
            request.review_at == old(request).review_at,
        decreases n - i,
    {
        let e = DecisionEvidence::from_operational_summary(&request.operational_summaries[i]);
        let ghost before = view_seq(request.evidence@);
        let ghost em = e@;
        request.evidence.push(e);
        assert(view_seq(request.evidence@) =~= before.push(em));
        assert(view_seq(request.evidence@).take(start.len() as int) =~= before.take(start.len() as int));
        i = i + 1;
    }
    let m = request.adaptation_proposals.len();
    let mut j: usize = 0;
    while j < m
        invariant
            m == request.adaptation_proposals@.len(),
            n == sums.len(),
            props == view_seq(request.adaptation_proposals@),
            j <= m,
            view_seq(request.evidence@).len() == start.len() + n + j,
            view_seq(request.evidence@).take(start.len() as int) == start,
            forall|k: int|
                0 <= k < n ==> evidence_of_summary(#[trigger] view_seq(request.evidence@)[start.len() + k], sums[k]),
            forall|k: int|
                0 <= k < j ==> evidence_of_proposal(
                    #[trigger] view_seq(request.evidence@)[start.len() + n + k],
                    props[k],
                ),
            request.request_id == old(request).request_id,
            request.subject == old(request).subject,
            request.alternatives@ == old(request).alternatives@,
            request.operational_summaries@ == old(request).operational_summaries@,
            request.adaptation_proposals@ == old(request).adaptation_proposals@,
            request.review_at == old(request).review_at,
        decreases m - j,
    {
        let e = DecisionEvidence::from_adaptation_proposal(&request.adaptation_proposals[j]);
        let ghost before = view_seq(request.evidence@);
        let ghost em = e@;
        request.evidence.push(e);
        assert(view_seq(request.evidence@) =~= before.push(em));
        assert(view_seq(request.evidence@).take(start.len() as int) =~= before.take(start.len() as int));
        assert forall|k: int| 0 <= k < n implies evidence_of_summary(
            #[trigger] view_seq(request.evidence@)[start.len() + k],
            sums[k],
        ) by {
            assert(view_seq(request.evidence@)[start.len() + k] == before[start.len() + k]);
        }
        j = j + 1;
    }
}

/// Fills in the source of a crisis signal that names none.
pub fn with_default_source(signal: CrisisSignal, source: VsmAddress) -> (r: CrisisSignal)
    ensures
        r.signal_id == signal.signal_id,
        r.severity == signal.severity,
        r.summary == signal.summary,
        r.evidence@ == signal.evidence@,
        r.raised_at == signal.raised_at,
        signal.source is None ==> r.source == Some(source),
        signal.source is Some ==> r.source == signal.source,
{
    if signal.source.is_none() {
        CrisisSignal { source: Some(source), ..signal }
    } else {
        signal
    }
}

/// System 5's policy history as plain values.
pub struct PolicyHistory {
    pub identity: Option<IdentityRecordModel>,
    pub decisions: Seq<DecisionRecordModel>,
    pub directives: Seq<PolicyDirectiveModel>,
    pub directive_acknowledgements: Seq<PolicyDirectiveAcknowledgementModel>,
    pub crises: Seq<CrisisResponseModel>,
    pub escalations: Seq<PolicyEscalationModel>,
}

/// System 5's policy history.
pub struct PolicyState {
    identity: Option<IdentityRecord>,
    decisions: Vec<DecisionRecord>,
    directives: Vec<PolicyDirective>,
    directive_acknowledgements: Vec<PolicyDirectiveAcknowledgement>,
    crises: Vec<CrisisResponse>,
    escalations: Vec<crate::protocol::system5::PolicyEscalation>,
}

impl View for PolicyState {
    type V = PolicyHistory;

    closed spec fn view(&self) -> PolicyHistory {
        PolicyHistory {
            identity: opt_view(self.identity),
            decisions: view_seq(self.decisions@),
            directives: view_seq(self.directives@),
            directive_acknowledgements: view_seq(self.directive_acknowledgements@),
            crises: view_seq(self.crises@),
            escalations: view_seq(self.escalations@),
        }
    }
}

/// When the latest recorded decision was taken.
pub open spec fn last_decided(decisions: Seq<DecisionRecordModel>) -> Option<i64> {
    if decisions.len() == 0 {
        None
    } else {
        Some(decisions.last().decided_at)
    }
}

impl PolicyState {
    /// An empty policy history.
    pub fn new() -> (r: Self)
        ensures
            r@.identity is None,
            r@.decisions.len() == 0,
            r@.directives.len() == 0,
            r@.directive_acknowledgements.len() == 0,
            r@.crises.len() == 0,
            r@.escalations.len() == 0,
    {
        PolicyState {
            identity: None,
            decisions: Vec::new(),
            directives: Vec::new(),
            directive_acknowledgements: Vec::new(),
            crises: Vec::new(),
            escalations: Vec::new(),
        }
    }

    /// Keeps the identity the identity provider returned and hands it back.
    pub fn record_identity(&mut self, identity: IdentityRecord) -> (r: IdentityRecord)
        ensures
            r@ == identity@,
            final(self)@ == (PolicyHistory { identity: Some(identity@), ..old(self)@ }),
    {
        self.identity = Some(identity.duplicate());
        identity
    }

    /// Appends a decision, its directives and its escalations to the history.
    pub fn record_decision(&mut self, decision: &DecisionRecord)
        ensures
            final(self)@ == (PolicyHistory {
                decisions: old(self)@.decisions.push(decision@),
                directives: old(self)@.directives + decision@.directives,
                escalations: old(self)@.escalations + decision@.escalations,
                ..old(self)@
            }),
    {
        extend_dup(&mut self.directives, &decision.directives);
        extend_dup(&mut self.escalations, &decision.escalations);
        let ghost before = self.decisions@;
        let d = decision.duplicate();
        self.decisions.push(d);
        assert(view_seq(self.decisions@) =~= view_seq(before).push(decision@));
    }

    /// Records a crisis response: its decision as a decision, then the response itself.
    pub fn record_crisis(&mut self, response: &CrisisResponse)
        ensures
            final(self)@ == (PolicyHistory {
                decisions: old(self)@.decisions.push(response@.decision),
                directives: old(self)@.directives + response@.decision.directives,
                escalations: old(self)@.escalations + response@.decision.escalations,
                crises: old(self)@.crises.push(response@),
                ..old(self)@
            }),
    {
        self.record_decision(&response.decision);
        let ghost before = self.crises@;
        let c = response.duplicate();
        self.crises.push(c);
        assert(view_seq(self.crises@) =~= view_seq(before).push(response@));
    }

    /// Records directive acknowledgements in order and returns the resulting snapshot.
    pub fn acknowledge_directives(&mut self, acknowledgements: Vec<PolicyDirectiveAcknowledgement>) -> (r:
        System5Snapshot)
        ensures
            final(self)@ == (PolicyHistory {
                directive_acknowledgements: old(self)@.directive_acknowledgements + view_seq(acknowledgements@),
                ..old(self)@
            }),
            view_seq(r.directive_acknowledgements@) == final(self)@.directive_acknowledgements,
            view_seq(r.decisions@) == final(self)@.decisions,
            r.last_decision_at == last_decided(final(self)@.decisions),
    {
        extend_dup(&mut self.directive_acknowledgements, &acknowledgements);
        self.snapshot()
    }

    /// A snapshot of the history; the last decision time is that of the latest decision.
    pub fn snapshot(&self) -> (r: System5Snapshot)
        ensures
            opt_view(r.identity) == self@.identity,
            view_seq(r.decisions@) == self@.decisions,
            view_seq(r.directives@) == self@.directives,
            view_seq(r.directive_acknowledgements@) == self@.directive_acknowledgements,
            view_seq(r.crises@) == self@.crises,
            view_seq(r.escalations@) == self@.escalations,
            r.last_decision_at == last_decided(self@.decisions),
    {
        let n = self.decisions.len();
        let last = if n > 0 {
            assert(view_seq(self.decisions@).last() == self.decisions@[n - 1]@);
            Some(self.decisions[n - 1].decided_at)
        } else {
            None
        };
        System5Snapshot {
            identity: dup_opt(&self.identity),
            decisions: dup_vec(&self.decisions),
            directives: dup_vec(&self.directives),
            directive_acknowledgements: dup_vec(&self.directive_acknowledgements),
            crises: dup_vec(&self.crises),
            escalations: dup_vec(&self.escalations),
            last_decision_at: last,
        }
    }
}

/// The name of a System 5 actor: `typed.<runtime>.system5.<role>`.
pub fn system5_actor_name(runtime_id: &RuntimeId, role: &str) -> (r: String)
    ensures
        r@ == "typed."@ + runtime_id@ + ".system5."@ + role@,
{
    let mut out = concat3("typed.", runtime_id.as_str(), ".system5.");
    out.append(role);
    out
}

} // verus!

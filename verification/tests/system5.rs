use vsm_rs::protocol::envelope::ProtocolMetadata;
use vsm_rs::kernel::system4::ProposalRouting;
use vsm_rs::kernel::system5::{
    enrich_request_with_context, normalize_crisis_response, normalize_decision, normalize_directive,
    system5_actor_name, with_default_source, PolicyState,
};
use vsm_rs::protocol::address::{RecursionPath, RuntimeId, SubsystemRole, VsmAddress};
use vsm_rs::protocol::system3::OperationalSummary;
use vsm_rs::protocol::system5::{
    CrisisResponse, CrisisSeverity, CrisisSignal, DecisionAlternative, DecisionEvidenceKind, DecisionRecord,
    DecisionRequest, DecisionStatus, IdentityRecord, IdentityVersion, PolicyDirective, PolicyDirectiveAcknowledgement,
    PolicyDirectiveKind, ValuesEvaluation, ValuesVersion,
};

fn issuer() -> VsmAddress {
    VsmAddress::new(RuntimeId::from_string("rt".to_string()), RecursionPath::root(), SubsystemRole::System5)
}

fn evaluation() -> ValuesEvaluation {
    ValuesEvaluation {
        metadata: ProtocolMetadata::new(),
        evaluation_id: "e1".to_string(),
        identity_version: IdentityVersion::initial().next(),
        values_version: ValuesVersion::initial().next().next(),
        aligned: true,
        findings: vec![],
        rationale: None,
        evaluated_at: 3,
    }
}

fn summary() -> OperationalSummary {
    OperationalSummary {
        metadata: ProtocolMetadata::new(),
        summary_id: "summary-1".to_string(),
        resource_request_count: 2,
        allocation_count: 1,
        directive_count: 3,
        failed_acknowledgement_count: 0,
        generated_at: 42,
        affected_units: vec![],
    }
}

#[test]
fn directive_normalization_fills_issuer_and_version() {
    let mut directive = PolicyDirective::new(PolicyDirectiveKind::Strategic, "grow".to_string(), 1);
    normalize_directive(&mut directive, &issuer());
    assert_eq!(directive.authority.issued_by, Some(issuer()));
    assert_eq!(directive.version, directive.authority.policy_version);
    let once = directive.authority.issued_by.clone();
    normalize_directive(&mut directive, &issuer());
    assert_eq!(directive.authority.issued_by, once);
}

#[test]
fn decision_normalization_fills_gaps_from_request_and_evaluation() {
    let request = DecisionRequest::new("expand".to_string(), 1)
        .with_alternative(DecisionAlternative::new("a".to_string()));
    let identity = IdentityRecord::new("org".to_string(), 1);
    let mut decision = DecisionRecord::new(&request, &identity, ValuesVersion::initial(), DecisionStatus::Approved, "ok".to_string(), 5)
        .with_selected(
            DecisionAlternative::new("a".to_string())
                .with_directive(PolicyDirective::new(PolicyDirectiveKind::Review, "review".to_string(), 5)),
        );
    decision.request_id = String::new();
    decision.subject = String::new();
    normalize_decision(&mut decision, &request, &evaluation(), &issuer());
    assert_eq!(decision.request_id, request.request_id);
    assert_eq!(decision.subject, "expand");
    assert_eq!(decision.evaluation.as_ref().unwrap().evaluation_id, "e1");
    assert_eq!(decision.identity_version.get(), 2);
    assert_eq!(decision.values_version.get(), 3);
    assert_eq!(decision.authority.issued_by, Some(issuer()));
    assert_eq!(decision.policy_version, decision.authority.policy_version);
    assert_eq!(decision.directives.len(), 1);
    assert_eq!(decision.directives[0].authority.issued_by, Some(issuer()));
    assert_eq!(decision.metadata.source, Some(issuer()));
    assert_eq!(decision.directives[0].metadata.source, Some(issuer()));
    assert_eq!(decision.metadata.causation_id, Some(request.metadata.correlation_id.clone()));
}

#[test]
fn crisis_response_answers_the_signal() {
    let signal = CrisisSignal::new(CrisisSeverity::Critical, "fire".to_string(), 1);
    let other = CrisisSignal::new(CrisisSeverity::Low, "other".to_string(), 1);
    let request = DecisionRequest::new("fire".to_string(), 1);
    let identity = IdentityRecord::new("org".to_string(), 1);
    let decision = DecisionRecord::new(&request, &identity, ValuesVersion::initial(), DecisionStatus::Crisis, "act".to_string(), 2)
        .with_selected(
            DecisionAlternative::new("act".to_string())
                .with_directive(PolicyDirective::new(PolicyDirectiveKind::CrisisResponse, "act".to_string(), 2)),
        );
    let mut response = CrisisResponse::new(&other, decision, 3);
    normalize_crisis_response(&mut response, &signal, &issuer());
    assert_eq!(response.signal_id, signal.signal_id);
    assert_eq!(response.decision.authority.issued_by, Some(issuer()));
    assert_eq!(response.directives.len(), 1);
    assert_eq!(response.directives[0].authority.issued_by, Some(issuer()));
    assert_eq!(response.metadata.source, Some(issuer()));
    assert_eq!(response.decision.metadata.source, Some(issuer()));
    assert_eq!(response.metadata.causation_id, Some(other.metadata.correlation_id.clone()));
}

#[test]
fn requests_gain_evidence_from_operational_summaries() {
    let mut request = DecisionRequest::new("x".to_string(), 1).with_operational_summary(summary());
    enrich_request_with_context(&mut request);
    assert_eq!(request.evidence.len(), 1);
    let evidence = &request.evidence[0];
    assert_eq!(evidence.kind, DecisionEvidenceKind::System3Operational);
    assert_eq!(
        evidence.summary,
        "System 3 summary summary-1: 2 requests, 1 allocations, 3 directives, 0 failed acknowledgements"
    );
    assert_eq!(evidence.provenance, vec!["system3-summary:summary-1"]);
    assert_eq!(evidence.observed_at, 42);
}

#[test]
fn requests_gain_evidence_from_adaptation_proposals() {
    let proposal = ProposalRouting {
        metadata: ProtocolMetadata::new(),
        proposal_id: "p7".to_string(),
        scenario_id: None,
        title: "open a branch".to_string(),
        generated_at: 77,
        destination: None,
        provenance: vec!["assessment:a1".to_string()],
    };
    let correlation = proposal.metadata.correlation_id.clone();
    let mut request = DecisionRequest::new("x".to_string(), 1)
        .with_adaptation_proposal(proposal)
        .with_operational_summary(summary());
    enrich_request_with_context(&mut request);
    assert_eq!(request.evidence.len(), 2);
    assert_eq!(request.evidence[0].kind, DecisionEvidenceKind::System3Operational);
    let evidence = &request.evidence[1];
    assert_eq!(evidence.kind, DecisionEvidenceKind::System4Future);
    assert_eq!(evidence.summary, "System 4 proposal p7: open a branch");
    assert_eq!(evidence.provenance, vec!["assessment:a1"]);
    assert_eq!(evidence.observed_at, 77);
    assert_eq!(evidence.metadata.causation_id, Some(correlation));
    assert!(evidence.evidence_id.starts_with("decision-evidence-"));
}

#[test]
fn crisis_signal_source_defaults_to_the_reporter() {
    let signal = CrisisSignal::new(CrisisSeverity::High, "x".to_string(), 1);
    let with_source = with_default_source(signal, issuer());
    assert_eq!(with_source.source, Some(issuer()));
}

#[test]
fn snapshot_reports_the_latest_decision_time() {
    let mut state = PolicyState::new();
    assert_eq!(state.snapshot().last_decision_at, None);
    let request = DecisionRequest::new("x".to_string(), 1);
    let identity = IdentityRecord::new("org".to_string(), 1);
    let first = DecisionRecord::new(&request, &identity, ValuesVersion::initial(), DecisionStatus::Approved, "a".to_string(), 10);
    let second = DecisionRecord::new(&request, &identity, ValuesVersion::initial(), DecisionStatus::Deferred, "b".to_string(), 20);
    state.record_decision(&first);
    state.record_decision(&second);
    let snapshot = state.snapshot();
    assert_eq!(snapshot.decisions.len(), 2);
    assert_eq!(snapshot.last_decision_at, Some(20));
}

#[test]
fn directive_acknowledgements_are_kept_in_order() {
    let mut state = PolicyState::new();
    let directive = PolicyDirective::new(PolicyDirectiveKind::Review, "r".to_string(), 1)
        .with_target_units(vec!["u1".to_string(), "u2".to_string()]);
    let ok = PolicyDirectiveAcknowledgement::accepted(&directive, 2);
    let bad = PolicyDirectiveAcknowledgement::failed(&directive, "no".to_string(), 3);
    let snapshot = state.acknowledge_directives(vec![ok, bad]);
    assert_eq!(snapshot.directive_acknowledgements.len(), 2);
    assert_eq!(snapshot.directive_acknowledgements[0].target_unit.as_deref(), Some("u1"));
    assert_eq!(snapshot.directive_acknowledgements[1].reason.as_deref(), Some("no"));
}

#[test]
fn identity_is_kept() {
    let mut state = PolicyState::new();
    let identity = IdentityRecord::new("org".to_string(), 1).with_purpose("serve".to_string());
    let back = state.record_identity(identity);
    assert_eq!(back.label, "org");
    assert_eq!(state.snapshot().identity.unwrap().purpose.as_deref(), Some("serve"));
}

#[test]
fn system5_actor_names() {
    assert_eq!(system5_actor_name(&RuntimeId::from_string("rt".to_string()), "policy"), "typed.rt.system5.policy");
}

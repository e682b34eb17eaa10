use vsm_rs::error::FrameworkError;
use vsm_rs::kernel::system3::{authorize_audit, system3_actor_name, AuditState, ControlState};
use vsm_rs::protocol::address::{RecursionPath, RuntimeId, SubsystemRole, VsmAddress};
use vsm_rs::protocol::system1::AuditScope;
use vsm_rs::protocol::system3::{
    AuditAuthorization, AuditFinding, AuditResponse, AuditSeverity, AuthorityScope, ControlAckStatus, DirectiveAcknowledgement,
    OperationalDirective, OperationalDirectiveKind, ResourceAllocation, ResourceDecision, ResourceRequest,
    RemediationAction, System3AuditRequest,
};

fn issuer() -> VsmAddress {
    VsmAddress::new(RuntimeId::from_string("rt".to_string()), RecursionPath::root(), SubsystemRole::System3)
}

fn request(unit: &str) -> ResourceRequest {
    ResourceRequest::new(vec!["cpu".to_string()], "more".to_string(), 1).for_unit(unit.to_string())
}

#[test]
fn governance_stamps_authority_and_acknowledges_allocations() {
    let mut state = ControlState::new();
    let req = request("u1");
    let grant = ResourceAllocation::new(&req, ResourceDecision::Grant, 5);
    let deny = ResourceAllocation::new(&req, ResourceDecision::Deny, 5).with_required_ack(false);
    let directive = OperationalDirective::new(
        OperationalDirectiveKind::Drain,
        vec!["u2".to_string(), "u3".to_string()],
        "drain".to_string(),
        5,
    );
    let cycle = state.govern_resources(vec![req], vec![], vec![grant, deny], vec![directive], &issuer(), 10);
    assert_eq!(cycle.allocations.len(), 2);
    for a in &cycle.allocations {
        assert_eq!(a.authority.issued_by, Some(issuer()));
        assert_eq!(a.authority.scope, AuthorityScope::ResourceGovernance);
        assert_eq!(a.metadata.source, Some(issuer()));
    }
    assert_eq!(cycle.directives[0].authority.issued_by, Some(issuer()));
    assert_eq!(cycle.directives[0].authority.scope, AuthorityScope::OperationalControl);
    assert_eq!(cycle.directives[0].metadata.source, Some(issuer()));
    assert_eq!(cycle.resource_requests[0].metadata.source, Some(issuer()));
    let ack = &cycle.allocation_acknowledgements[0];
    assert_eq!(ack.metadata.causation_id, Some(cycle.allocations[0].metadata.correlation_id.clone()));
    assert_eq!(ack.metadata.correlation_id, cycle.allocations[0].metadata.correlation_id);
    // Only the allocation that requires acknowledgement is acknowledged.
    assert_eq!(cycle.allocation_acknowledgements.len(), 1);
    assert_eq!(cycle.allocation_acknowledgements[0].allocation_id, cycle.allocations[0].allocation_id);
    assert_eq!(cycle.allocation_acknowledgements[0].status, ControlAckStatus::Accepted);
    assert_eq!(cycle.summaries.len(), 1);
    let summary = &cycle.summaries[0];
    assert!(summary.summary_id.starts_with("summary-"));
    assert_eq!(summary.resource_request_count, 1);
    assert_eq!(summary.allocation_count, 2);
    assert_eq!(summary.directive_count, 1);
    assert_eq!(summary.failed_acknowledgement_count, 0);
    assert_eq!(summary.generated_at, 10);
    assert_eq!(summary.affected_units, vec!["u1", "u1", "u2", "u3"]);
    let snapshot = state.snapshot();
    assert_eq!(snapshot.allocations.len(), 2);
    assert_eq!(snapshot.last_control_cycle_at, Some(10));
    assert_eq!(snapshot.last_audit_at, None);
}

#[test]
fn directive_acknowledgements_count_failures() {
    let mut state = ControlState::new();
    let directive = OperationalDirective::new(OperationalDirectiveKind::Stop, vec!["u1".to_string()], "stop".to_string(), 1);
    let ok = DirectiveAcknowledgement::accepted(&directive, "u1".to_string(), 2);
    let bad = DirectiveAcknowledgement::failed(&directive, "u2".to_string(), "boom".to_string(), 3);
    let rejected = DirectiveAcknowledgement::rejected(&directive, "u3".to_string(), "no".to_string(), 4);
    let cycle = state.record_directive_acknowledgements(vec![ok, bad, rejected], 9);
    assert_eq!(cycle.directive_acknowledgements.len(), 3);
    assert_eq!(cycle.summaries[0].failed_acknowledgement_count, 2);
    assert_eq!(cycle.summaries[0].affected_units, vec!["u1", "u2", "u3"]);
    let snapshot = state.snapshot();
    assert_eq!(snapshot.directive_acknowledgements.len(), 3);
    // Acknowledgements alone are not a control cycle.
    assert_eq!(snapshot.last_control_cycle_at, None);
}

#[test]
fn unapproved_audit_is_refused() {
    let mut request = System3AuditRequest::new(AuditScope::AllUnits, "check".to_string(), 1);
    request.authorization = AuditAuthorization::rejected("check".to_string());
    let id = request.audit_id.clone();
    match authorize_audit(request, &issuer()) {
        Err(FrameworkError::InvalidProtocol { reason }) => {
            assert_eq!(reason, format!("audit request is not authorized: {}", id));
        }
        _ => panic!("expected refusal"),
    }
}

#[test]
fn approved_audit_gets_audit_authority() {
    let request = System3AuditRequest::new(AuditScope::AllUnits, "check".to_string(), 1);
    let id = request.audit_id.clone();
    let admitted = authorize_audit(request, &issuer()).unwrap();
    assert_eq!(admitted.metadata.source, Some(issuer()));
    assert_eq!(admitted.audit_id, id);
    assert_eq!(admitted.authorization.authority.issued_by, Some(issuer()));
    assert_eq!(admitted.authorization.authority.scope, AuthorityScope::Audit);
}

#[test]
fn completed_audits_fill_the_snapshot() {
    let state = ControlState::new();
    let mut audits = AuditState::new();
    let request = System3AuditRequest::new(AuditScope::AllUnits, "check".to_string(), 1);
    let finding = AuditFinding::new(AuditSeverity::Medium, "capacity".to_string(), "tight".to_string(), 2);
    let remediation = RemediationAction::new(finding.finding_id.clone(), vec!["u1".to_string()], "add".to_string());
    let response = AuditResponse::new(&request, vec![finding], vec![remediation], 3);
    let auditor = VsmAddress::new(RuntimeId::from_string("rt".to_string()), RecursionPath::root(), SubsystemRole::System3Star);
    let back = audits.complete_audit(response, &auditor, 4);
    assert_eq!(back.audit_id, request.audit_id);
    assert_eq!(back.metadata.source, Some(auditor.clone()));
    assert_eq!(back.findings[0].metadata.source, Some(auditor.clone()));
    assert_eq!(back.remediations[0].metadata.source, Some(auditor));
    assert_eq!(back.metadata.causation_id, Some(request.metadata.correlation_id.clone()));
    let snapshot = audits.fill_snapshot(state.snapshot());
    assert_eq!(snapshot.audit_responses.len(), 1);
    assert_eq!(snapshot.last_audit_at, Some(4));
}

#[test]
fn system3_actor_names() {
    let name = system3_actor_name(&RuntimeId::from_string("rt".to_string()), &RecursionPath::root(), "control");
    assert_eq!(name, "rt:root:System3:control");
}

use vsm_rs::protocol::envelope::ProtocolMetadata;
use vsm_rs::kernel::system2::{coordination_actor_name, CoordinationState};
use vsm_rs::protocol::address::{RecursionPath, RuntimeId, SubsystemRole, VsmAddress};
use vsm_rs::protocol::system1::CapacitySnapshot;
use vsm_rs::protocol::system2::{
    status_reason, CoordinationAckStatus, CoordinationAcknowledgement, CoordinationConflict,
    CoordinationConflictKind, CoordinationIntervention, CoordinationInterventionKind, CoordinationSeverity,
    CoordinationView,
};

fn source() -> VsmAddress {
    VsmAddress::new(RuntimeId::from_string("rt".to_string()), RecursionPath::root(), SubsystemRole::System2)
}

fn system3() -> VsmAddress {
    VsmAddress::new(RuntimeId::from_string("rt".to_string()), RecursionPath::root(), SubsystemRole::System3)
}

fn view(id: &str) -> CoordinationView {
    CoordinationView {
        metadata: ProtocolMetadata::new(),
        unit_id: id.to_string(),
        capabilities: vec!["x".to_string()],
        capacity: CapacitySnapshot::new(0, 0, None),
        snapshot_version: None,
    }
}

#[test]
fn views_are_versioned_per_unit() {
    let mut state = CoordinationState::new();
    state.record_view(view("a"), 10);
    state.record_view(view("a"), 20);
    state.record_view(view("b"), 30);
    let views = state.current_views();
    assert_eq!(views.len(), 2);
    let a = views.iter().find(|v| v.view.unit_id == "a").unwrap();
    assert_eq!(a.version.get(), 2);
    assert_eq!(a.received_at, 20);
    let b = views.iter().find(|v| v.view.unit_id == "b").unwrap();
    assert_eq!(b.version.get(), 1);
}

#[test]
fn failed_acknowledgement_of_a_conflict_escalates() {
    let mut state = CoordinationState::new();
    let conflict = CoordinationConflict::new(
        CoordinationConflictKind::CapacityPressure,
        vec!["a".to_string()],
        CoordinationSeverity::High,
        "pressure".to_string(),
        5,
    );
    let conflict_id = conflict.conflict_id.clone();
    let intervention = CoordinationIntervention::new(
        CoordinationInterventionKind::Throttle,
        vec!["a".to_string()],
        "slow down".to_string(),
        6,
    )
    .for_conflict(conflict_id.clone());
    let id = intervention.intervention_id.clone();
    let ack = CoordinationAcknowledgement::new(&intervention, "a".to_string(), CoordinationAckStatus::Rejected, None, 7);
    let cycle = state.complete_cycle(vec![conflict], vec![intervention], &source(), 6);
    assert_eq!(cycle.conflicts[0].metadata.source, Some(source()));
    assert_eq!(cycle.interventions[0].metadata.source, Some(source()));
    let ack_correlation = ack.metadata.correlation_id.clone();
    let cycle = state.record_acknowledgements(vec![ack], &source(), &system3(), 8);
    assert_eq!(cycle.escalations.len(), 1);
    assert_eq!(cycle.escalations[0].intervention_id, id);
    assert_eq!(cycle.escalations[0].reason, "rejected");
    assert_eq!(cycle.escalations[0].conflict.conflict_id, conflict_id);
    assert_eq!(cycle.escalations[0].metadata.source, Some(source()));
    assert_eq!(cycle.escalations[0].metadata.destination, Some(system3()));
    assert_eq!(cycle.escalations[0].metadata.causation_id, Some(ack_correlation));
    let snapshot = state.snapshot();
    assert_eq!(snapshot.pending_interventions.len(), 1);
    assert_eq!(snapshot.escalations.len(), 1);
}

#[test]
fn successful_acknowledgements_clear_pending_interventions() {
    let mut state = CoordinationState::new();
    let intervention = CoordinationIntervention::new(
        CoordinationInterventionKind::Drain,
        vec!["a".to_string(), "b".to_string()],
        "drain".to_string(),
        1,
    );
    let ack_a = CoordinationAcknowledgement::new(&intervention, "a".to_string(), CoordinationAckStatus::Accepted, None, 2);
    let ack_b = CoordinationAcknowledgement::new(&intervention, "b".to_string(), CoordinationAckStatus::Applied, None, 2);
    state.complete_cycle(vec![], vec![intervention], &source(), 1);
    state.record_acknowledgements(vec![ack_a], &source(), &system3(), 3);
    assert_eq!(state.snapshot().pending_interventions.len(), 1);
    state.record_acknowledgements(vec![ack_b], &source(), &system3(), 4);
    assert_eq!(state.snapshot().pending_interventions.len(), 0);
}

#[test]
fn status_words_and_names() {
    assert_eq!(status_reason(CoordinationAckStatus::Failed), "failed");
    let rt = RuntimeId::from_string("rt".to_string());
    assert_eq!(coordination_actor_name(&rt, &RecursionPath::root()), "rt:root:System2:coordination");
}

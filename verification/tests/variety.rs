use std::collections::BTreeMap;
use vsm_rs::protocol::envelope::ProtocolMetadata;
use vsm_rs::protocol::variety::{
    VarietyEstimate, VarietyIntervention, VarietyInterventionKind, VarietyInterventionOutcome, VarietyObservation,
    VarietyTrend,
};
use vsm_rs::error::FrameworkError;
use vsm_rs::kernel::variety::{
    alert_severity, is_final_algedonic_status, retain, variety_actor_name, with_default_source, AlgedonicLifecycle,
    VarietyHistory, RETAINED_RECORDS,
};
use vsm_rs::protocol::address::{RecursionPath, RuntimeId, SubsystemRole, VsmAddress};
use vsm_rs::protocol::algedonic::{
    AlertSeverity, AlgedonicAcknowledgement, AlgedonicLifecycleStatus, AlgedonicSeverity, AlgedonicSignalKind,
    AlgedonicSignalRecord,
};
use vsm_rs::protocol::system5::{
    CrisisResponse, CrisisSeverity, CrisisSignal, DecisionRecord, DecisionRequest, DecisionStatus, IdentityRecord,
    ValuesVersion,
};

fn target() -> VsmAddress {
    VsmAddress::new(RuntimeId::from_string("rt".to_string()), RecursionPath::root(), SubsystemRole::System5)
}

fn variety_source() -> VsmAddress {
    VsmAddress::new(RuntimeId::from_string("rt".to_string()), RecursionPath::root(), SubsystemRole::Variety)
}

fn signal(severity: AlgedonicSeverity) -> AlgedonicSignalRecord {
    AlgedonicSignalRecord::new(AlgedonicSignalKind::Pain, severity, "hurts".to_string(), 1)
}

fn response() -> CrisisResponse {
    let crisis = CrisisSignal::new(CrisisSeverity::High, "x".to_string(), 1);
    let request = DecisionRequest::new("x".to_string(), 1);
    let identity = IdentityRecord::new("org".to_string(), 1);
    let decision = DecisionRecord::new(&request, &identity, ValuesVersion::initial(), DecisionStatus::Crisis, "r".to_string(), 2);
    CrisisResponse::new(&crisis, decision, 3)
}

#[test]
fn high_signal_raises_an_alert_and_is_classified() {
    let mut lifecycle = AlgedonicLifecycle::new();
    let (cycle, alert) = lifecycle.record_classified(signal(AlgedonicSeverity::High), &variety_source(), 5);
    assert_eq!(cycle.signal.status, AlgedonicLifecycleStatus::Classified);
    assert_eq!(cycle.recorded_at, 5);
    let alert = alert.expect("alert");
    assert_eq!(alert.signal_id, cycle.signal.signal_id);
    assert_eq!(alert.message, "hurts");
    assert_eq!(cycle.signal.metadata.source, Some(variety_source()));
    assert_eq!(alert.metadata.source, Some(variety_source()));
    assert_eq!(alert.metadata.causation_id, Some(cycle.signal.metadata.correlation_id.clone()));
    assert_eq!(alert.raised_at, 5);
    assert_eq!(lifecycle.snapshot().alerts.len(), 1);
}

#[test]
fn low_signal_raises_no_alert_unless_its_priority_is_high() {
    let mut lifecycle = AlgedonicLifecycle::new();
    let (_, alert) = lifecycle.record_classified(signal(AlgedonicSeverity::Low), &variety_source(), 5);
    assert!(alert.is_none());
    let (_, alert) = lifecycle.record_classified(signal(AlgedonicSeverity::Low).with_priority(750), &variety_source(), 6);
    assert!(alert.is_some());
    let snapshot = lifecycle.snapshot();
    assert_eq!(snapshot.signals.len(), 2);
    assert_eq!(snapshot.alerts.len(), 1);
}

#[test]
fn dispatch_of_unknown_signal_is_refused() {
    let mut lifecycle = AlgedonicLifecycle::new();
    match lifecycle.record_system5_dispatch(&"nope".to_string(), response(), 3) {
        Err(FrameworkError::Unavailable { target }) => assert_eq!(target, "algedonic signal nope"),
        _ => panic!("expected refusal"),
    }
}

#[test]
fn dispatch_marks_signal_and_keeps_response() {
    let mut lifecycle = AlgedonicLifecycle::new();
    let (cycle, _) = lifecycle.record_classified(signal(AlgedonicSeverity::Critical), &variety_source(), 5);
    let id = cycle.signal.signal_id.clone();
    let dispatched = lifecycle.record_system5_dispatch(&id, response(), 6).unwrap();
    assert_eq!(dispatched.signal.status, AlgedonicLifecycleStatus::Dispatched);
    assert!(dispatched.crisis_response.is_some());
    assert_eq!(dispatched.recorded_at, 6);
}

#[test]
fn acknowledged_signal_does_not_expire() {
    let mut lifecycle = AlgedonicLifecycle::new();
    let mut waiting = signal(AlgedonicSeverity::Medium);
    waiting.acknowledgement_deadline = Some(10);
    let mut answered = signal(AlgedonicSeverity::Medium);
    answered.acknowledgement_deadline = Some(10);
    lifecycle.record_classified(waiting, &variety_source(), 1);
    let (cycle, _) = lifecycle.record_classified(answered, &variety_source(), 1);
    let ack = AlgedonicAcknowledgement::accepted(&cycle.signal, 5);
    let snapshot = lifecycle.acknowledge(vec![ack]);
    assert_eq!(snapshot.signals[1].status, AlgedonicLifecycleStatus::Acknowledged);
    assert_eq!(snapshot.acknowledgements.len(), 1);
    // Before the deadline nothing expires.
    assert!(lifecycle.expire_due(9, &target()).is_empty());
    let escalations = lifecycle.expire_due(10, &target());
    assert_eq!(escalations.len(), 1);
    assert_eq!(escalations[0].reason, "algedonic acknowledgement deadline expired");
    assert_eq!(escalations[0].escalated_at, 10);
    let snapshot = lifecycle.snapshot();
    assert_eq!(snapshot.signals[0].status, AlgedonicLifecycleStatus::Expired);
    assert_eq!(snapshot.signals[1].status, AlgedonicLifecycleStatus::Acknowledged);
    // An expired signal is not expired again.
    assert!(lifecycle.expire_due(100, &target()).is_empty());
    let recorded = lifecycle.record_escalations(escalations);
    assert_eq!(recorded.len(), 1);
    assert_eq!(lifecycle.snapshot().escalations.len(), 1);
}

#[test]
fn retention_keeps_the_newest_records() {
    let mut items: Vec<usize> = (0..RETAINED_RECORDS + 5).collect();
    retain(&mut items);
    assert_eq!(items.len(), RETAINED_RECORDS);
    assert_eq!(items[0], 5);
    assert_eq!(*items.last().unwrap(), RETAINED_RECORDS + 4);
    let mut few = vec![1, 2, 3];
    retain(&mut few);
    assert_eq!(few, vec![1, 2, 3]);
}

#[test]
fn final_statuses() {
    assert!(!is_final_algedonic_status(AlgedonicLifecycleStatus::Proposed));
    assert!(!is_final_algedonic_status(AlgedonicLifecycleStatus::Classified));
    assert!(!is_final_algedonic_status(AlgedonicLifecycleStatus::Dispatched));
    assert!(is_final_algedonic_status(AlgedonicLifecycleStatus::Acknowledged));
    assert!(is_final_algedonic_status(AlgedonicLifecycleStatus::ActedUpon));
    assert!(is_final_algedonic_status(AlgedonicLifecycleStatus::Resolved));
    assert!(is_final_algedonic_status(AlgedonicLifecycleStatus::Escalated));
    assert!(is_final_algedonic_status(AlgedonicLifecycleStatus::Expired));
}

#[test]
fn alert_severity_keeps_the_level() {
    assert_eq!(alert_severity(AlgedonicSeverity::Low), AlertSeverity::Low);
    assert_eq!(alert_severity(AlgedonicSeverity::Critical), AlertSeverity::Critical);
}

#[test]
fn default_source_only_fills_a_missing_source() {
    let filled = with_default_source(signal(AlgedonicSeverity::Low), &target());
    assert_eq!(filled.source, Some(target()));
    let other = VsmAddress::new(RuntimeId::from_string("x".to_string()), RecursionPath::root(), SubsystemRole::System1);
    let kept = with_default_source(filled, &other);
    assert_eq!(kept.source, Some(target()));
}

#[test]
fn variety_actor_names() {
    let name = variety_actor_name(&RuntimeId::from_string("rt".to_string()), &RecursionPath::root());
    assert_eq!(name, "rt:root:variety-algedonic-temporal:lifecycle");
}

#[test]
fn variety_history_keeps_the_newest_records() {
    let mut history = VarietyHistory::new();
    for i in 0..1001i64 {
        history.record_variety(observation(i), vec![intervention(i)], &variety_source(), i);
    }
    let cycle = history.record_variety(observation(2000), vec![], &variety_source(), 2000);
    assert_eq!(cycle.evaluated_at, 2000);
    assert_eq!(cycle.outcomes.len(), 0);
    let observations = history.observation_records();
    assert_eq!(observations.len(), 1000);
    assert_eq!(observations[0].observation_id, "observation-2");
    assert_eq!(observations[999].observation_id, "observation-2000");
    let interventions = history.intervention_records();
    assert_eq!(interventions.len(), 1000);
    assert_eq!(interventions[0].intervention_id, "intervention-1");
    history.record_outcomes(vec![outcome("intervention-5")], &variety_source());
    assert_eq!(history.outcome_records().len(), 1);
    assert_eq!(history.observation_records().len(), 1000);
}

#[test]
fn variety_records_name_this_runtime_as_their_source() {
    let mut history = VarietyHistory::new();
    let cycle = history.record_variety(observation(1), vec![intervention(1)], &variety_source(), 9);
    assert_eq!(cycle.observation.metadata.source, Some(variety_source()));
    assert_eq!(cycle.observation.estimate.metadata.source, Some(variety_source()));
    assert_eq!(cycle.interventions[0].metadata.source, Some(variety_source()));
    assert_eq!(cycle.interventions[0].reason, "too much variety");
    assert_eq!(cycle.metadata.causation_id, Some(cycle.observation.metadata.correlation_id.clone()));
    history.record_outcomes(vec![outcome("intervention-1")], &variety_source());
    let outcomes = history.outcome_records();
    assert_eq!(outcomes[0].metadata.source, Some(variety_source()));
    assert!(outcomes[0].accepted);
}

fn observation(i: i64) -> VarietyObservation {
    VarietyObservation {
        metadata: ProtocolMetadata::new(),
        observation_id: format!("observation-{i}"),
        source_unit: Some("u1".to_string()),
        estimate: VarietyEstimate {
            metadata: ProtocolMetadata::new(),
            estimate_id: format!("estimate-{i}"),
            trend: VarietyTrend::Stable,
            dimensions: BTreeMap::new(),
            measured_at: i,
        },
        notes: BTreeMap::new(),
        observed_at: i,
    }
}

fn intervention(i: i64) -> VarietyIntervention {
    VarietyIntervention {
        metadata: ProtocolMetadata::new(),
        intervention_id: format!("intervention-{i}"),
        kind: VarietyInterventionKind::Attenuation,
        target_units: vec!["u1".to_string()],
        reason: "too much variety".to_string(),
        requires_ack: true,
        proposed_at: i,
    }
}

fn outcome(id: &str) -> VarietyInterventionOutcome {
    VarietyInterventionOutcome {
        metadata: ProtocolMetadata::new(),
        intervention_id: id.to_string(),
        target_unit: Some("u1".to_string()),
        accepted: true,
        reason: None,
        recorded_at: 3,
    }
}

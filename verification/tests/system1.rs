use vsm_rs::error::FrameworkError;
use vsm_rs::kernel::system1::{
    admission_outcome, call_timeout_ms, check_snapshot_version, observed_disposition, request_timeout,
    next_work_observation_step, unit_actor_name, unit_call_failed, with_default_deadline, PerformanceObservation,
    UnitActorState, WorkObservationEvent, WorkObservationStep, UnitAdmissionLimits, UnitRegistration,
    UnitRegistry,
};
use vsm_rs::protocol::address::{RecursionPath, RuntimeId, SubsystemRole};
use vsm_rs::protocol::envelope::{Priority, ProtocolMetadata};
use vsm_rs::protocol::snapshot::{SnapshotKey, SnapshotVersion};
use vsm_rs::protocol::system1::{CapacitySnapshot, UnitDescriptor, WorkDisposition, WorkOptions};

fn registration(id: &str, caps: &[&str], max: Option<usize>) -> UnitRegistration {
    UnitRegistration {
        descriptor: UnitDescriptor::new(id.to_string(), caps.iter().map(|c| c.to_string()).collect()),
        admission: UnitAdmissionLimits { max_in_flight: max },
        save_on_unregister: false,
    }
}

fn open_capacity() -> CapacitySnapshot {
    CapacitySnapshot::new(0, 0, None)
}

#[test]
fn register_then_list_keeps_registration_order() {
    let mut registry = UnitRegistry::new(None);
    registry.register_unit(registration("b", &["x"], None)).unwrap();
    registry.register_unit(registration("a", &["y"], None)).unwrap();
    let units = registry.list_units();
    assert_eq!(units.len(), 2);
    assert_eq!(units[0].descriptor.unit_id, "b");
    assert_eq!(units[1].descriptor.unit_id, "a");
    assert_eq!(units[0].in_flight, 0);
    assert!(!units[0].draining);
}

#[test]
fn duplicate_registration_is_refused_with_quoted_id() {
    let mut registry = UnitRegistry::new(None);
    registry.register_unit(registration("u1", &[], None)).unwrap();
    match registry.register_unit(registration("u1", &[], None)) {
        Err(FrameworkError::InvalidProtocol { reason }) => assert_eq!(reason, "unit already registered: \"u1\""),
        _ => panic!("expected a refusal"),
    }
    assert_eq!(registry.list_units().len(), 1);
}

#[test]
fn registry_limit_backpressures() {
    let mut registry = UnitRegistry::new(Some(1));
    registry.register_unit(registration("u1", &[], None)).unwrap();
    match registry.register_unit(registration("u2", &[], None)) {
        Err(FrameworkError::Backpressured { reason }) => {
            assert_eq!(reason, "maximum registered System 1 units reached")
        }
        _ => panic!("expected backpressure"),
    }
}

#[test]
fn shutdown_returns_units_once_and_refuses_registration() {
    let mut registry = UnitRegistry::new(None);
    registry.register_unit(registration("u1", &[], None)).unwrap();
    let removed = registry.shutdown();
    assert_eq!(removed.len(), 1);
    assert_eq!(removed[0].descriptor.unit_id, "u1");
    assert!(registry.shutdown().is_empty());
    assert!(matches!(registry.register_unit(registration("u2", &[], None)), Err(FrameworkError::Shutdown)));
}

#[test]
fn missing_unit_is_unavailable() {
    let registry = UnitRegistry::new(None);
    match registry.unit_entry(&"ghost".to_string()) {
        Err(FrameworkError::Unavailable { target }) => assert_eq!(target, "system1.unit \"ghost\""),
        _ => panic!("expected unavailable"),
    }
}

#[test]
fn reserve_and_release_round_trip() {
    let mut registry = UnitRegistry::new(None);
    registry.register_unit(registration("u1", &[], Some(1))).unwrap();
    let id = "u1".to_string();
    let reserved = registry.reserve_unit(&id).expect("reserved");
    assert_eq!(reserved.in_flight, 1);
    assert!(registry.reserve_unit(&id).is_none());
    registry.release_unit(&id);
    assert_eq!(registry.list_units()[0].in_flight, 0);
    registry.release_unit(&id);
    assert_eq!(registry.list_units()[0].in_flight, 0);
}

#[test]
fn draining_unit_is_not_reserved() {
    let mut registry = UnitRegistry::new(None);
    registry.register_unit(registration("u1", &[], None)).unwrap();
    registry.drain_unit(&"u1".to_string()).unwrap();
    assert!(registry.reserve_unit(&"u1".to_string()).is_none());
    assert!(registry.list_units()[0].draining);
}

#[test]
fn unregister_removes_the_unit() {
    let mut registry = UnitRegistry::new(None);
    registry.register_unit(registration("u1", &[], None)).unwrap();
    let entry = registry.unregister_unit(&"u1".to_string()).unwrap();
    assert_eq!(entry.descriptor.unit_id, "u1");
    assert!(registry.list_units().is_empty());
    assert!(registry.unregister_unit(&"u1".to_string()).is_err());
}

#[test]
fn eligible_units_count_advertisers_and_keep_accepting_ones() {
    let mut registry = UnitRegistry::new(None);
    registry.register_unit(registration("a", &["x", "y"], None)).unwrap();
    registry.register_unit(registration("b", &["x"], None)).unwrap();
    registry.register_unit(registration("c", &["x", "y"], Some(0))).unwrap();
    let required = vec!["x".to_string(), "y".to_string()];
    let reported = vec![open_capacity(), open_capacity(), open_capacity()];
    let eligible = registry.eligible_units(&required, &reported);
    assert_eq!(eligible.static_eligible_count, 2);
    assert_eq!(eligible.accepting_candidates.len(), 1);
    assert_eq!(eligible.accepting_candidates[0].descriptor.unit_id, "a");
    assert_eq!(eligible.accepting_candidates[0].capacity.max_in_flight, None);
}

#[test]
fn admission_without_advertisers_reports_shortage() {
    let registry = UnitRegistry::new(None);
    let eligible = registry.eligible_units(&[], &Vec::new());
    let (result, shortage) = admission_outcome(eligible, vec!["x".to_string()]);
    match result {
        Err(FrameworkError::Unavailable { target }) => assert_eq!(target, "system1.unit"),
        _ => panic!("expected unavailable"),
    }
    let shortage = shortage.expect("shortage");
    assert_eq!(shortage.required_capabilities, vec!["x".to_string()]);
    assert_eq!(shortage.reason, "no registered System 1 unit advertises every required capability");
}

#[test]
fn admission_with_busy_advertisers_backpressures() {
    let mut registry = UnitRegistry::new(None);
    registry.register_unit(registration("a", &["x"], Some(0))).unwrap();
    let eligible = registry.eligible_units(&["x".to_string()], &vec![open_capacity()]);
    let (result, shortage) = admission_outcome(eligible, vec!["x".to_string()]);
    match result {
        Err(FrameworkError::Backpressured { reason }) => {
            assert_eq!(reason, "all eligible System 1 units are at admission capacity")
        }
        _ => panic!("expected backpressure"),
    }
    assert!(shortage.is_none());
}

#[test]
fn selection_of_nothing_or_a_busy_unit_is_refused() {
    let mut registry = UnitRegistry::new(None);
    registry.register_unit(registration("a", &[], Some(0))).unwrap();
    assert!(matches!(registry.reserve_selected(None), Err(FrameworkError::Unavailable { .. })));
    match registry.reserve_selected(Some("a".to_string())) {
        Err(FrameworkError::Backpressured { reason }) => {
            assert_eq!(reason, "selected unit is no longer accepting work: \"a\"")
        }
        _ => panic!("expected backpressure"),
    }
}

#[test]
fn default_deadline_and_timeouts() {
    let options = WorkOptions { deadline: None, priority: Priority::High };
    let filled = with_default_deadline(options, 1_000, 30_000);
    assert_eq!(filled.deadline, Some(31_000));
    assert_eq!(filled.priority, Priority::High);
    let kept = with_default_deadline(WorkOptions { deadline: Some(5), priority: Priority::Low }, 1_000, 30_000);
    assert_eq!(kept.deadline, Some(5));
    assert_eq!(request_timeout(Some(1_500), 1_000), Some(500));
    assert_eq!(request_timeout(Some(500), 1_000), None);
    assert_eq!(request_timeout(None, 1_000), None);
    assert_eq!(call_timeout_ms(Some(1_500), 1_000, 30_000), 1_500);
    assert_eq!(call_timeout_ms(None, 1_000, 30_000), 31_000);
    assert_eq!(call_timeout_ms(None, 0, u64::MAX), u64::MAX);
}

#[test]
fn unit_actor_admits_until_its_limit() {
    let mut state = UnitActorState::new("u1".to_string(), UnitAdmissionLimits { max_in_flight: Some(1) });
    assert_eq!(state.begin_work(Some(100)).unwrap(), 100);
    assert_eq!(state.in_flight, 1);
    match state.begin_work(Some(100)) {
        Err(FrameworkError::Backpressured { reason }) => assert_eq!(reason, "unit is at admission capacity: \"u1\""),
        _ => panic!("expected backpressure"),
    }
    state.finish_work();
    state.finish_work();
    assert_eq!(state.in_flight, 0);
    match state.begin_work(None) {
        Err(FrameworkError::Timeout { operation }) => assert_eq!(operation, "typed System 1 unit work"),
        _ => panic!("expected timeout"),
    }
    state.drain();
    match state.begin_work(Some(1)) {
        Err(FrameworkError::Backpressured { reason }) => assert_eq!(reason, "unit is draining: \"u1\""),
        _ => panic!("expected draining"),
    }
}

#[test]
fn unit_actor_capacity_merges_admission_state() {
    let mut state = UnitActorState::new("u1".to_string(), UnitAdmissionLimits { max_in_flight: None });
    state.in_flight = 3;
    let merged = state.capacity(CapacitySnapshot { observed_at: 7, in_flight: 0, max_in_flight: Some(3), accepting_work: true });
    assert_eq!(merged.in_flight, 3);
    assert_eq!(merged.max_in_flight, Some(3));
    assert!(!merged.accepting_work);
    assert_eq!(merged.observed_at, 7);
}

#[test]
fn snapshot_version_mismatch_is_incompatible() {
    let key = SnapshotKey::new(RuntimeId::from_string("rt".to_string()), RecursionPath::root(), SubsystemRole::System1)
        .with_entity("u1".to_string());
    assert!(check_snapshot_version(&key, SnapshotVersion(1), SnapshotVersion(1)).is_ok());
    match check_snapshot_version(&key, SnapshotVersion(1), SnapshotVersion(12)) {
        Err(FrameworkError::SnapshotIncompatible { key, reason }) => {
            assert_eq!(key, "rt:root:System1:u1");
            assert_eq!(reason, "expected version SnapshotVersion(1), found SnapshotVersion(12)");
        }
        _ => panic!("expected incompatibility"),
    }
}

#[test]
fn names_and_dispositions() {
    let rt = RuntimeId::from_string("rt".to_string());
    let path = RecursionPath::from_segments(vec!["a".to_string(), "b".to_string()]);
    let descriptor = UnitDescriptor::new("u1".to_string(), Vec::new());
    assert_eq!(unit_actor_name(&rt, &path, &descriptor), "rt:a/b:System1:unit:\"u1\"");
    match unit_call_failed(&"actor".to_string()) {
        FrameworkError::Timeout { operation } => assert_eq!(operation, "typed System 1 unit work via actor"),
        _ => panic!("expected timeout"),
    }
    assert_eq!(observed_disposition(None), WorkDisposition::FrameworkFailed);
    assert_eq!(observed_disposition(Some(WorkDisposition::Completed)), WorkDisposition::Completed);
}

#[test]
fn work_observations_carry_the_request_metadata() {
    let metadata = ProtocolMetadata::new();
    let unclassified = PerformanceObservation::for_attempt(&metadata, "u1".to_string(), None);
    assert_eq!(unclassified.metadata, metadata);
    assert_eq!(unclassified.unit_id, "u1");
    assert_eq!(unclassified.disposition, WorkDisposition::FrameworkFailed);
    assert_eq!(unclassified.elapsed_ms, None);
    let done = PerformanceObservation::for_attempt(&metadata, "u1".to_string(), Some(WorkDisposition::Completed));
    assert_eq!(done.disposition, WorkDisposition::Completed);
}

#[test]
fn work_observation_roles_run_in_order() {
    assert_eq!(next_work_observation_step(true, WorkObservationEvent::Started), WorkObservationStep::Classify);
    assert_eq!(next_work_observation_step(true, WorkObservationEvent::Classified), WorkObservationStep::Measure);
    assert_eq!(next_work_observation_step(false, WorkObservationEvent::Classified), WorkObservationStep::AssessPerformance);
    assert_eq!(next_work_observation_step(true, WorkObservationEvent::Measured), WorkObservationStep::AssessPerformance);
    assert_eq!(next_work_observation_step(true, WorkObservationEvent::Assessed { succeeded: false }), WorkObservationStep::Done);
    assert_eq!(next_work_observation_step(false, WorkObservationEvent::Assessed { succeeded: true }), WorkObservationStep::AssessVariety);
    assert_eq!(next_work_observation_step(true, WorkObservationEvent::VarietyAssessed), WorkObservationStep::ClassifyAlgedonic);
    assert_eq!(next_work_observation_step(true, WorkObservationEvent::AlgedonicClassified), WorkObservationStep::Done);
}

use vsm_rs::protocol::envelope::ProtocolMetadata;
use vsm_rs::error::FrameworkError;
use vsm_rs::kernel::recursion::{require_allowed, RecursionRegistry};
use vsm_rs::kernel::system1::ResourceShortageRequest;
use vsm_rs::protocol::address::{RecursionPath, RuntimeId, SubsystemRole};
use vsm_rs::protocol::recursion::{
    child_destination, ChildRuntimeDescriptor, ChildRuntimeStatus, RecursionBoundaryDecision,
    RecursionIntelligenceSummary,
};
use vsm_rs::protocol::system1::{CapacitySnapshot, UnitDescriptor};
use vsm_rs::protocol::system3::ResourceRequest;

fn child(id: &str) -> ChildRuntimeDescriptor {
    ChildRuntimeDescriptor::new(
        id.to_string(),
        RuntimeId::from_string(format!("rt-{}", id)),
        RecursionPath::root().child(id.to_string()),
        UnitDescriptor::new(id.to_string(), vec!["work".to_string()]),
        CapacitySnapshot::new(0, 0, None),
        1,
    )
}

#[test]
fn denied_boundary_decision_is_refused_with_its_reason() {
    match require_allowed(&RecursionBoundaryDecision::deny("policy".to_string())) {
        Err(FrameworkError::InvalidProtocol { reason }) => {
            assert_eq!(reason, "recursion boundary denied operation: policy")
        }
        _ => panic!("expected refusal"),
    }
    assert!(require_allowed(&RecursionBoundaryDecision::allow()).is_ok());
}

#[test]
fn children_register_once() {
    let mut registry = RecursionRegistry::new();
    assert!(registry.admit_child(&child("c1"), &RecursionBoundaryDecision::allow()).is_ok());
    let snapshot = registry.complete_registration(child("c1"), 3).unwrap();
    assert_eq!(snapshot.status, ChildRuntimeStatus::Running);
    assert_eq!(snapshot.registered_units, 3);
    match registry.admit_child(&child("c1"), &RecursionBoundaryDecision::allow()) {
        Err(FrameworkError::InvalidProtocol { reason }) => assert_eq!(reason, "child runtime already registered: c1"),
        _ => panic!("expected refusal"),
    }
    match registry.complete_registration(child("c1"), 1) {
        Err(FrameworkError::InvalidProtocol { reason }) => assert_eq!(reason, "child runtime already registered: c1"),
        _ => panic!("expected refusal"),
    }
    match registry.admit_child(&child("c2"), &RecursionBoundaryDecision::deny("no".to_string())) {
        Err(FrameworkError::InvalidProtocol { reason }) => assert_eq!(reason, "recursion boundary denied operation: no"),
        _ => panic!("expected refusal"),
    }
    assert_eq!(registry.list_children().len(), 1);
}

#[test]
fn unknown_child_is_unavailable() {
    let registry = RecursionRegistry::new();
    match registry.child_entry(&"ghost".to_string()) {
        Err(FrameworkError::Unavailable { target }) => assert_eq!(target, "child runtime ghost"),
        _ => panic!("expected refusal"),
    }
}

#[test]
fn resource_escalation_is_recorded_either_way() {
    let mut registry = RecursionRegistry::new();
    registry.complete_registration(child("c1"), 1).unwrap();
    let shortage = ResourceShortageRequest {
        metadata: ProtocolMetadata::new(),
        required_capabilities: vec!["gpu".to_string()],
        work_label: None,
        reason: "need".to_string(),
    };
    let parent = ResourceRequest::new(vec!["gpu".to_string()], "need".to_string(), 2);
    let allowed = registry
        .record_resource_escalation(&"c1".to_string(), shortage, RecursionBoundaryDecision::allow(), parent, 2)
        .unwrap();
    assert_eq!(allowed.reason, "need");
    let shortage = ResourceShortageRequest { metadata: ProtocolMetadata::new(), required_capabilities: vec![], work_label: None, reason: "x".to_string() };
    let parent = ResourceRequest::new(vec![], "x".to_string(), 3);
    assert!(registry
        .record_resource_escalation(&"c1".to_string(), shortage, RecursionBoundaryDecision::deny("no".to_string()), parent, 3)
        .is_err());
    assert_eq!(registry.snapshot(4).resource_escalations.len(), 2);
}

#[test]
fn intelligence_summary_of_unknown_child_is_refused() {
    let mut registry = RecursionRegistry::new();
    let summary = RecursionIntelligenceSummary::from_counts(&ProtocolMetadata::new(), "c9".to_string(), 1, 2, 3, None, 5);
    assert!(registry.record_intelligence_summary(summary).is_err());
    registry.complete_registration(child("c9"), 1).unwrap();
    let summary = RecursionIntelligenceSummary::from_counts(&ProtocolMetadata::new(), "c9".to_string(), 1, 2, 3, None, 5);
    let kept = registry.record_intelligence_summary(summary).unwrap();
    assert_eq!(kept.proposal_count, 3);
}

#[test]
fn shutdown_stops_children_once() {
    let mut registry = RecursionRegistry::new();
    registry.complete_registration(child("a"), 1).unwrap();
    registry.complete_registration(child("b"), 1).unwrap();
    let ids = registry.shutdown();
    assert_eq!(ids, vec!["a", "b"]);
    assert!(registry.shutdown().is_empty());
    let snapshot = registry.snapshot(9);
    assert!(snapshot.children.iter().all(|c| c.status == ChildRuntimeStatus::Stopped));
    assert_eq!(snapshot.captured_at, 9);
    assert!(matches!(registry.ensure_running(), Err(FrameworkError::Shutdown)));
    assert!(matches!(
        registry.admit_child(&child("c"), &RecursionBoundaryDecision::allow()),
        Err(FrameworkError::Shutdown)
    ));
}

#[test]
fn child_destination_has_no_entity() {
    let address = child_destination(RuntimeId::from_string("rt".to_string()), RecursionPath::root(), SubsystemRole::System3);
    assert_eq!(address.role, SubsystemRole::System3);
    assert_eq!(address.entity, None);
}

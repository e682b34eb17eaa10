use vsm_rs::protocol::address::{RecursionPath, RuntimeId, SubsystemRole, VsmAddress};
use vsm_rs::protocol::bus::{DeliveryMetrics, DeliveryStatus};
use vsm_rs::protocol::envelope::{set_source, CorrelationId, ProtocolMetadata, ProtocolVersion};
use vsm_rs::protocol::recursion::{child_destination, RecursionBoundaryDecision};
use vsm_rs::protocol::snapshot::{SnapshotKey, SnapshotVersion};
use vsm_rs::protocol::system2::{CoordinationAckStatus, CoordinationViewVersion};
use vsm_rs::protocol::system3::{AuditDataBoundary, ControlAckStatus, ControlVersion};
use vsm_rs::protocol::system4::EnvironmentSourceDescriptor;
use vsm_rs::protocol::system5::{PolicyAckStatus, PolicyVersion};
use vsm_rs::protocol::temporal::TemporalScale;

#[test]
fn recursion_paths_and_labels() {
    let root = RecursionPath::root();
    assert!(root.is_root());
    assert_eq!(root.label(), "root");
    let child = root.child("a".to_string()).child("b".to_string());
    assert!(!child.is_root());
    assert_eq!(child.segments().len(), 2);
    assert_eq!(child.label(), "a/b");
    assert_eq!(RecursionPath::from_segments(vec!["x".to_string()]).label(), "x");
}

#[test]
fn role_labels_follow_debug_names() {
    assert_eq!(SubsystemRole::System3Star.label(), "System3Star");
    assert_eq!(SubsystemRole::Custom("r".to_string()).label(), "Custom(\"r\")");
}

#[test]
fn fresh_identities_are_distinct() {
    let a = RuntimeId::new();
    let b = RuntimeId::new();
    assert_ne!(a.as_str(), b.as_str());
    assert_eq!(a.as_str().len(), 36);
    assert_eq!(RuntimeId::from_string("rt".to_string()).as_str(), "rt");
    assert_eq!(CorrelationId::from_string("c".to_string()).as_str(), "c");
}

#[test]
fn addresses_and_snapshot_keys() {
    let addr = VsmAddress::new(RuntimeId::from_string("rt".to_string()), RecursionPath::root(), SubsystemRole::System1)
        .with_entity("e".to_string());
    assert_eq!(addr.entity, Some("e".to_string()));
    let dest = child_destination(RuntimeId::from_string("c".to_string()), RecursionPath::root(), SubsystemRole::System5);
    assert_eq!(dest.runtime_id.as_str(), "c");
    assert_eq!(dest.entity, None);
    let key = SnapshotKey::new(RuntimeId::from_string("rt".to_string()), RecursionPath::root(), SubsystemRole::System2);
    assert_eq!(key.stable_id(), "rt:root:System2:-");
    assert_eq!(SnapshotVersion::initial(), SnapshotVersion(1));
}

#[test]
fn metadata_children_point_at_their_parent() {
    let parent = ProtocolMetadata::new();
    let child = parent.child();
    assert_eq!(child.correlation_id.as_str(), parent.correlation_id.as_str());
    assert_eq!(child.causation_id.as_ref().map(|c| c.as_str().to_string()), Some(parent.correlation_id.as_str().to_string()));
    let v = ProtocolVersion::current();
    assert_eq!((v.major, v.minor), (0, 1));
}

#[test]
fn delivery_metrics_count_each_status() {
    let mut metrics = DeliveryMetrics::zero();
    metrics.record(DeliveryStatus::Delivered);
    metrics.record(DeliveryStatus::Delivered);
    metrics.record(DeliveryStatus::Backpressured);
    assert_eq!(metrics.delivered, 2);
    assert_eq!(metrics.backpressured, 1);
    assert_eq!(metrics.target_unavailable, 0);
    assert!(DeliveryStatus::Delivered.is_delivered());
    assert!(!DeliveryStatus::TargetUnavailable.is_delivered());
}

#[test]
fn versions_advance_and_saturate() {
    assert_eq!(CoordinationViewVersion::initial().next().get(), 2);
    assert_eq!(ControlVersion::initial().get(), 1);
    assert_eq!(ControlVersion::initial().next().next().get(), 3);
    assert_eq!(PolicyVersion::initial().next().get(), 2);
    let mut v = PolicyVersion::initial();
    for _ in 0..3 {
        v = v.next();
    }
    assert_eq!(v.get(), 4);
}

#[test]
fn acknowledgement_success() {
    assert!(CoordinationAckStatus::Applied.is_success());
    assert!(!CoordinationAckStatus::Rejected.is_success());
    assert!(ControlAckStatus::Accepted.is_success());
    assert!(!ControlAckStatus::Expired.is_success());
    assert!(PolicyAckStatus::Applied.is_success());
    assert!(!PolicyAckStatus::Failed.is_success());
}

#[test]
fn boundary_decisions() {
    assert!(RecursionBoundaryDecision::allow().is_allowed());
    assert!(!RecursionBoundaryDecision::deny("no".to_string()).is_allowed());
}

#[test]
fn descriptors_and_scales() {
    let d = EnvironmentSourceDescriptor::new("s1".to_string())
        .with_label("Source".to_string())
        .with_stale_after(500)
        .with_provenance(vec!["feed".to_string()]);
    assert_eq!(d.source_id, "s1");
    assert_eq!(d.label, "Source");
    assert_eq!(d.stale_after, Some(500));
    assert_eq!(d.provenance, vec!["feed".to_string()]);
    assert_eq!(EnvironmentSourceDescriptor::new("s2".to_string()).label, "s2");
    let scale = TemporalScale::new("minute".to_string(), 60_000);
    assert_eq!(scale.schema_version, 1);
    assert!(!AuditDataBoundary::without_snapshots().include_snapshots);
    assert!(AuditDataBoundary::with_snapshots().include_snapshots);
}

#[test]
fn set_source_names_the_subsystem() {
    let mut metadata = ProtocolMetadata::new();
    let correlation = metadata.correlation_id.clone();
    set_source(&mut metadata, &RuntimeId::from_string("rt".to_string()), &RecursionPath::root(), SubsystemRole::System3);
    let source = metadata.source.clone().unwrap();
    assert_eq!(source.runtime_id.as_str(), "rt");
    assert_eq!(source.role, SubsystemRole::System3);
    assert_eq!(source.entity, None);
    assert_eq!(metadata.correlation_id, correlation);
    assert_eq!(metadata.destination, None);
}

use vsm_rs::kernel::event_bus::{ObserverBus, ObserverId, SendOutcome};
use vsm_rs::kernel::registry::{internal_component_name, RuntimeComponentStatus, RuntimeDirectory};
use vsm_rs::protocol::address::{RecursionPath, RuntimeId, SubsystemRole, VsmAddress};

fn rt() -> RuntimeId {
    RuntimeId::from_string("rt".to_string())
}

#[test]
fn component_names_join_runtime_path_role_and_entity() {
    let address = VsmAddress::new(rt(), RecursionPath::root(), SubsystemRole::System1);
    assert_eq!(internal_component_name(&rt(), &RecursionPath::root(), &address, "e"), "rt:root:System1:e");
    let custom = VsmAddress::new(rt(), RecursionPath::root(), SubsystemRole::Custom("x".to_string()));
    let path = RecursionPath::root().child("a".to_string()).child("b".to_string());
    assert_eq!(internal_component_name(&rt(), &path, &custom, "e"), "rt:a/b:Custom(\"x\"):e");
}

#[test]
fn directory_keeps_components_in_name_order() {
    let mut directory = RuntimeDirectory::new();
    directory.register(&rt(), &RecursionPath::root(), SubsystemRole::System5, "policy".to_string(), RuntimeComponentStatus::Running);
    directory.register(&rt(), &RecursionPath::root(), SubsystemRole::System1, "unit".to_string(), RuntimeComponentStatus::Running);
    directory.register(&rt(), &RecursionPath::root(), SubsystemRole::System3, "control".to_string(), RuntimeComponentStatus::Running);
    let names: Vec<String> = directory.snapshot().components.into_iter().map(|c| c.internal_name).collect();
    assert_eq!(names, vec!["rt:root:System1:unit", "rt:root:System3:control", "rt:root:System5:policy"]);
}

#[test]
fn registering_the_same_name_replaces_the_component() {
    let mut directory = RuntimeDirectory::new();
    directory.register(&rt(), &RecursionPath::root(), SubsystemRole::System2, "c".to_string(), RuntimeComponentStatus::Running);
    directory.register(&rt(), &RecursionPath::root(), SubsystemRole::System2, "c".to_string(), RuntimeComponentStatus::Shutdown);
    let components = directory.snapshot().components;
    assert_eq!(components.len(), 1);
    assert_eq!(components[0].status, RuntimeComponentStatus::Shutdown);
    assert_eq!(components[0].address.entity.as_deref(), Some("c"));
}

#[test]
fn shutdown_marks_every_component() {
    let mut directory = RuntimeDirectory::new();
    directory.register(&rt(), &RecursionPath::root(), SubsystemRole::System2, "a".to_string(), RuntimeComponentStatus::Running);
    directory.register(&rt(), &RecursionPath::root(), SubsystemRole::System4, "b".to_string(), RuntimeComponentStatus::Running);
    directory.mark_all_shutdown();
    assert!(directory.snapshot().components.iter().all(|c| c.status == RuntimeComponentStatus::Shutdown));
}

#[test]
fn bus_with_zero_capacity_keeps_no_history() {
    let mut bus: ObserverBus<u32> = ObserverBus::new(0);
    bus.retain(1);
    bus.retain(2);
    assert!(bus.history_events().is_empty());
    assert_eq!(bus.channel_capacity(), 1);
}

#[test]
fn bus_history_is_newest_first_and_bounded() {
    let mut bus: ObserverBus<u32> = ObserverBus::new(2);
    bus.retain(1);
    bus.retain(2);
    bus.retain(3);
    assert_eq!(*bus.history_events(), vec![3, 2]);
    assert_eq!(bus.snapshot().retained_event_count, 2);
    assert_eq!(bus.channel_capacity(), 2);
}

#[test]
fn subscribing_twice_keeps_one_subscription() {
    let mut bus: ObserverBus<u32> = ObserverBus::new(4);
    bus.subscribe(ObserverId::from_string("a".to_string()));
    bus.subscribe(ObserverId::from_string("b".to_string()));
    bus.subscribe(ObserverId::from_string("a".to_string()));
    let ids: Vec<String> = bus.subscribers().iter().map(|o| o.as_str().to_string()).collect();
    assert_eq!(ids, vec!["a", "b"]);
}

#[test]
fn delivery_outcomes_update_subscribers_and_counters() {
    let mut bus: ObserverBus<u32> = ObserverBus::new(4);
    for id in ["a", "b", "c"] {
        bus.subscribe(ObserverId::from_string(id.to_string()));
    }
    bus.record_delivery(&vec![SendOutcome::Delivered, SendOutcome::Full, SendOutcome::Closed]);
    let ids: Vec<String> = bus.subscribers().iter().map(|o| o.as_str().to_string()).collect();
    assert_eq!(ids, vec!["a", "b"]);
    bus.record_sink_error();
    let snapshot = bus.snapshot();
    assert_eq!(snapshot.subscriber_count, 2);
    assert_eq!(snapshot.dropped_event_count, 1);
    assert_eq!(snapshot.closed_subscriber_count, 1);
    assert_eq!(snapshot.sink_error_count, 1);
}

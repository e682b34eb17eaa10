use std::sync::Arc;
use vsm_rs::builder::{missing_required_role, RoleChoice, VsmBuilder};
use vsm_rs::config::{
    RuntimeConfig, DEFAULT_EVENT_BUFFER_CAPACITY, DEFAULT_READINESS_TIMEOUT_MS, DEFAULT_SHUTDOWN_TIMEOUT_MS,
    DEFAULT_WORK_TIMEOUT_MS,
};
use vsm_rs::error::FrameworkError;
use vsm_rs::protocol::address::{RecursionPath, RuntimeId};

fn reason(e: FrameworkError) -> String {
    match e {
        FrameworkError::InvalidProtocol { reason } => reason,
        other => panic!("unexpected {:?}", other),
    }
}

#[test]
fn defaults() {
    assert_eq!(DEFAULT_WORK_TIMEOUT_MS, 30_000);
    assert_eq!(DEFAULT_READINESS_TIMEOUT_MS, 10_000);
    assert_eq!(DEFAULT_SHUTDOWN_TIMEOUT_MS, 10_000);
    assert_eq!(DEFAULT_EVENT_BUFFER_CAPACITY, 1024);
    let config = RuntimeConfig::new(RuntimeId::from_string("rt".to_string()));
    assert!(config.recursion_path.is_root());
    assert_eq!(config.max_registered_units, None);
    assert_eq!(config.default_work_timeout_ms, 30_000);
}

#[test]
fn config_setters() {
    let config = RuntimeConfig::new(RuntimeId::from_string("rt".to_string()))
        .with_recursion_path(RecursionPath::root().child("c".to_string()))
        .with_default_work_timeout(1)
        .with_readiness_timeout(2)
        .with_shutdown_timeout(3)
        .with_max_registered_units(4)
        .with_event_buffer_capacity(5);
    assert_eq!(config.recursion_path.label(), "c");
    assert_eq!(config.default_work_timeout_ms, 1);
    assert_eq!(config.readiness_timeout_ms, 2);
    assert_eq!(config.shutdown_timeout_ms, 3);
    assert_eq!(config.max_registered_units, Some(4));
    assert_eq!(config.event_buffer_capacity, 5);
    assert_eq!(config.with_unbounded_registered_units().max_registered_units, None);
}

#[test]
fn missing_work_model_is_refused_first() {
    let builder: VsmBuilder<u32> = VsmBuilder::new();
    let e = builder.start().err().expect("refused");
    assert_eq!(reason(e), "missing required System 1 role: WorkModel");
}

#[test]
fn missing_unit_factory_is_refused() {
    let builder: VsmBuilder<u32> = VsmBuilder::new().work_model(1);
    let e = builder.start().err().expect("refused");
    assert_eq!(reason(e), "missing required System 1 role: OperationalUnitFactory");
    assert_eq!(reason(missing_required_role("X")), "missing required System 1 role: X");
}

#[test]
fn plan_keeps_supplied_roles_and_defaults_the_rest() {
    let shared = Arc::new(7u32);
    let plan = VsmBuilder::with_config(RuntimeConfig::new(RuntimeId::from_string("rt".to_string())))
        .runtime_id(RuntimeId::from_string("other".to_string()))
        .default_work_timeout(99)
        .max_registered_units(3)
        .work_model(1)
        .operational_unit_factory_arc(shared.clone())
        .auditor(5)
        .clock(6)
        .start()
        .ok()
        .expect("plan");
    assert_eq!(plan.config.runtime_id.as_str(), "other");
    assert_eq!(plan.config.default_work_timeout_ms, 99);
    assert_eq!(plan.config.max_registered_units, Some(3));
    assert_eq!(*plan.system1.work_model, 1);
    assert!(Arc::ptr_eq(&plan.system1.operational_unit_factory, &shared));
    assert!(matches!(plan.system1.unit_selection_policy, RoleChoice::Default));
    assert!(matches!(plan.system3.auditor, RoleChoice::Provided(ref a) if **a == 5));
    assert!(matches!(plan.system3.resource_governance, RoleChoice::Default));
    assert!(matches!(plan.ports.clock, RoleChoice::Provided(ref c) if **c == 6));
    assert!(matches!(plan.ports.state_store, RoleChoice::Default));
}

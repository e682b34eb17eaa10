use serde_json::Value;
use vsm_rs::json::JsonValue;
use vsm_rs::actor_support::{service_id, service_subscriptions, ServiceKind, ServiceState, SERVICE_HISTORY_LIMIT};
use vsm_rs::cancellation::{cancellation_result, CancellationToken};
use vsm_rs::domain::{ChannelKind, MessageKind, SystemId, VsmMessage};
use vsm_rs::error::{FrameworkError, WorkError};
use vsm_rs::legacy::system1::{
    descriptor_to_unit_config, resource_shortage_from_message, unit_config_to_descriptor, LegacyAppError, UnitConfig,
};
use vsm_rs::names::{system1_unit, ROOT_SUPERVISOR, SYSTEM3_CONTROL};

fn unit_request(payload: JsonValue) -> VsmMessage {
    VsmMessage::resource_bargain(SystemId::System1, SystemId::System3, MessageKind::UnitRequest, payload, 1)
}

#[test]
fn unit_config_round_trip() {
    let config = UnitConfig {
        id: "u1".to_string(),
        capabilities: vec!["a".to_string(), "b".to_string()],
        auto_restart: false,
        metadata: JsonValue::Bool(true),
    };
    let descriptor = unit_config_to_descriptor(config);
    assert_eq!(descriptor.unit_id, "u1");
    assert_eq!(descriptor.capabilities.len(), 2);
    assert!(descriptor.capabilities.iter().all(|c| c.description.is_none()));
    let back = descriptor_to_unit_config(descriptor);
    assert_eq!(back.id, "u1");
    assert_eq!(back.capabilities, vec!["a", "b"]);
    assert!(back.auto_restart);
    assert_eq!(back.metadata, JsonValue::Null);
}

#[test]
fn shortage_reads_capabilities_and_transaction_type() {
    let payload = JsonValue::Object(vec![
        ("reason".to_string(), JsonValue::String("x".to_string())),
        (
            "required_capabilities".to_string(),
            JsonValue::Array(vec![
                JsonValue::String("gpu".to_string()),
                JsonValue::Bool(true),
                JsonValue::String("ram".to_string()),
            ]),
        ),
        ("transaction_type".to_string(), JsonValue::String("batch".to_string())),
    ]);
    let shortage = resource_shortage_from_message(&unit_request(payload)).unwrap();
    assert_eq!(shortage.required_capabilities, vec!["gpu", "ram"]);
    assert_eq!(shortage.work_label.as_deref(), Some("batch"));
    assert_eq!(shortage.reason, "no suitable unit for transaction type batch");
}

#[test]
fn shortage_without_details() {
    let shortage = resource_shortage_from_message(&unit_request(JsonValue::Null)).unwrap();
    assert!(shortage.required_capabilities.is_empty());
    assert_eq!(shortage.work_label, None);
    assert_eq!(shortage.reason, "no suitable unit");
}

#[test]
fn shortage_needs_a_unit_request_on_the_bargain_channel() {
    let wrong_kind =
        VsmMessage::resource_bargain(SystemId::System1, SystemId::System3, MessageKind::ResourceRequest, JsonValue::Null, 1);
    let wrong_channel = VsmMessage::command(SystemId::System3, SystemId::System1, MessageKind::UnitRequest, JsonValue::Null, 1);
    for message in [wrong_kind, wrong_channel] {
        match resource_shortage_from_message(&message) {
            Err(FrameworkError::InvalidProtocol { reason }) => {
                assert_eq!(reason, "expected ResourceBargain/UnitRequest message")
            }
            _ => panic!("expected refusal"),
        }
    }
    assert_eq!(ChannelKind::ResourceBargain.as_str(), "resource_bargain_channel");
}

#[test]
fn legacy_error_keeps_its_message() {
    assert_eq!(LegacyAppError::new("bad".to_string()).message, "bad");
}

#[test]
fn cancellation_is_shared_by_clones() {
    let token = CancellationToken::new();
    let clone = token.clone();
    assert!(!token.is_cancelled());
    assert!(token.check().is_ok());
    clone.cancel();
    assert!(token.is_cancelled());
    assert!(matches!(token.check(), Err(FrameworkError::Cancelled)));
    assert!(matches!(token.check_work::<String>(), Err(WorkError::Framework(FrameworkError::Cancelled))));
    assert!(matches!(cancellation_result(true), Err(FrameworkError::Cancelled)));
    assert!(cancellation_result(false).is_ok());
}

#[test]
fn service_ids_and_subscriptions() {
    assert_eq!(service_id(ServiceKind::System4Scanner), "system4");
    assert_eq!(service_id(ServiceKind::TelemetryReporter), "telemetry");
    assert_eq!(
        service_subscriptions(ServiceKind::System3Control),
        vec![(ChannelKind::ResourceBargain, "system3"), (ChannelKind::Command, "system3"), (ChannelKind::Audit, "system3")]
    );
    assert!(service_subscriptions(ServiceKind::System5Values).is_empty());
}

#[test]
fn service_history_is_newest_first_and_bounded() {
    let mut state = ServiceState::with_data(ServiceKind::System2Coordination, Value::Null);
    for i in 0..(SERVICE_HISTORY_LIMIT as u64 + 3) {
        state.record(Value::from(i));
    }
    assert_eq!(state.history.len(), SERVICE_HISTORY_LIMIT);
    assert_eq!(state.history[0], Value::from(SERVICE_HISTORY_LIMIT as u64 + 2));
    let recent = state.recent(2);
    assert_eq!(recent, vec![Value::from(SERVICE_HISTORY_LIMIT as u64 + 2), Value::from(SERVICE_HISTORY_LIMIT as u64 + 1)]);
    assert_eq!(ServiceState::with_data(ServiceKind::Algedonic, Value::Null).recent(5).len(), 0);
}

#[test]
fn actor_names() {
    assert_eq!(system1_unit("u7"), "vsm.system1.unit.u7");
    assert_eq!(ROOT_SUPERVISOR, "vsm.root_supervisor");
    assert_eq!(SYSTEM3_CONTROL, "vsm.system3.control");
}

#[test]
fn shortage_ignores_fields_of_the_wrong_shape() {
    let payload = JsonValue::Object(vec![
        ("required_capabilities".to_string(), JsonValue::String("gpu".to_string())),
        ("transaction_type".to_string(), JsonValue::Number("7".to_string())),
    ]);
    let shortage = resource_shortage_from_message(&unit_request(payload)).unwrap();
    assert!(shortage.required_capabilities.is_empty());
    assert_eq!(shortage.work_label, None);
    assert_eq!(shortage.reason, "no suitable unit");
}

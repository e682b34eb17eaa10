use serde_json::Value;
use vsm_rs::json::JsonValue;
use vsm_rs::channels::algedonic::{
    calculate_route_path, classify_signal, create_filter, default_rules, route_by_rules, is_blank, is_white_space, kind_name, parse_filter_severity,
    parse_severity, rule_route, AlgedonicArgs, AlgedonicState, validate_filters, validate_routing_rules, FilterKind, RoutingRule, Severity, SignalKind,
};
use vsm_rs::channels::broker::{broadcast_is_algedonic, ChannelBroker, Route, HISTORY_LIMIT};
use vsm_rs::channels::temporal_variety::{buffer_measurement, BUFFER_LIMIT};
use vsm_rs::domain::{ChannelKind, MessageKind, SystemId, VsmMessage};

fn rule(name: &str, destination: &str) -> RoutingRule {
    RoutingRule { name: name.to_string(), destination: destination.to_string(), min_priority_milli: 0, emergency_only: false }
}

#[test]
fn flow_matrix_refuses_command_upwards() {
    let message = VsmMessage::command(SystemId::System1, SystemId::System5, MessageKind::Execute, JsonValue::Null, 1);
    assert_eq!(message.validate(), Err("invalid command flow: System1 -> System5".to_string()));
    let message = VsmMessage::command(SystemId::System5, SystemId::System3, MessageKind::Execute, JsonValue::Null, 1);
    assert_eq!(message.validate(), Ok(()));
}

#[test]
fn flow_matrix_per_channel() {
    let c = VsmMessage::coordination(SystemId::System1, SystemId::System3, MessageKind::Coordinate, JsonValue::Null, 1);
    assert_eq!(c.validate(), Err("invalid coordination flow: System1 -> System3".to_string()));
    let a = VsmMessage::audit(SystemId::System3Star, SystemId::System1, MessageKind::AuditRequest, JsonValue::Null, 1);
    assert!(a.validate().is_ok());
    let a = VsmMessage::audit(SystemId::System2, SystemId::System1, MessageKind::AuditRequest, JsonValue::Null, 1);
    assert_eq!(a.validate(), Err("invalid audit flow: System2 -> System1".to_string()));
    let r = VsmMessage::resource_bargain(SystemId::System1, SystemId::System4, MessageKind::ResourceRequest, JsonValue::Null, 1);
    assert_eq!(r.validate(), Err("invalid resource bargain flow: System1 -> System4".to_string()));
    let bad = VsmMessage::new(SystemId::System1, SystemId::System2, ChannelKind::Algedonic, MessageKind::PainSignal, JsonValue::Null, 1);
    assert_eq!(bad.validate(), Err("invalid algedonic destination: System2".to_string()));
    let external = VsmMessage::command(SystemId::External, SystemId::System1, MessageKind::Execute, JsonValue::Null, 1);
    assert!(external.validate().is_ok());
    let broadcast = VsmMessage::command(SystemId::System1, SystemId::All, MessageKind::Execute, JsonValue::Null, 1);
    assert!(broadcast.validate().is_ok());
}

#[test]
fn messages_get_ids_and_replies_correlate() {
    let message = VsmMessage::algedonic(SystemId::System1, JsonValue::Bool(true), 7);
    assert!(message.id.starts_with("msg_"));
    assert_eq!(message.to, SystemId::System5);
    assert_eq!(message.kind, MessageKind::EmergencySignal);
    let reply = message.reply(MessageKind::Alert, JsonValue::Null, 8);
    assert_eq!(reply.from, SystemId::System5);
    assert_eq!(reply.to, SystemId::System1);
    assert_eq!(reply.correlation_id.as_deref(), Some(message.id.as_str()));
    assert_eq!(reply.reply_to.as_deref(), Some(message.id.as_str()));
    let second = reply.reply(MessageKind::Alert, JsonValue::Null, 9);
    assert_eq!(second.correlation_id.as_deref(), Some(message.id.as_str()));
    assert_eq!(second.reply_to.as_deref(), Some(reply.id.as_str()));
}

#[test]
fn high_priority_kinds() {
    for kind in [MessageKind::Alert, MessageKind::Emergency, MessageKind::Critical, MessageKind::EmergencySignal, MessageKind::PainSignal] {
        assert!(kind.is_high_priority());
    }
    assert!(!MessageKind::PleasureSignal.is_high_priority());
    assert!(!MessageKind::Other("x".to_string()).is_high_priority());
}

#[test]
fn channel_and_system_names() {
    assert_eq!(ChannelKind::all().len(), 6);
    assert_eq!(ChannelKind::ResourceBargain.as_str(), "resource_bargain_channel");
    assert_eq!(SystemId::System3Star.subscriber_id(), "system3_star");
    assert_eq!(SystemId::RateLimiter.debug_name(), "RateLimiter");
}

#[test]
fn routing_delivers_to_destination_or_broadcasts() {
    let mut broker = ChannelBroker::new();
    broker.subscribe(ChannelKind::Command, "system1".to_string());
    broker.subscribe(ChannelKind::Command, "observer".to_string());
    let direct = VsmMessage::command(SystemId::System3, SystemId::System1, MessageKind::Execute, JsonValue::Null, 1);
    match broker.route(&direct) {
        Route::Deliver { target } => assert_eq!(target, "system1"),
        _ => panic!("expected delivery"),
    }
    let to_all = VsmMessage::command(SystemId::System5, SystemId::All, MessageKind::Execute, JsonValue::Null, 1);
    match broker.route(&to_all) {
        Route::Broadcast { targets } => assert_eq!(targets, vec!["system1", "observer"]),
        _ => panic!("expected broadcast"),
    }
    let upward = VsmMessage::command(SystemId::System1, SystemId::System5, MessageKind::Execute, JsonValue::Null, 1);
    match broker.route(&upward) {
        Route::Rejected(reason) => assert_eq!(reason, "invalid command flow: System1 -> System5"),
        _ => panic!("expected rejection"),
    }
}

#[test]
fn algedonic_messages_go_to_system5_or_broadcast() {
    let mut broker = ChannelBroker::new();
    let signal = VsmMessage::algedonic(SystemId::System1, JsonValue::Null, 1);
    match broker.route(&signal) {
        Route::Broadcast { targets } => assert!(targets.is_empty()),
        _ => panic!("expected broadcast"),
    }
    broker.subscribe(ChannelKind::Algedonic, "algedonic".to_string());
    match broker.route(&signal) {
        Route::Broadcast { targets } => assert_eq!(targets, vec!["algedonic"]),
        _ => panic!("expected broadcast"),
    }
    broker.subscribe(ChannelKind::Algedonic, "system5".to_string());
    match broker.route(&signal) {
        Route::Deliver { target } => assert_eq!(target, "system5"),
        _ => panic!("expected delivery"),
    }
    assert!(broadcast_is_algedonic(ChannelKind::Algedonic));
    assert!(!broadcast_is_algedonic(ChannelKind::Audit));
}

#[test]
fn subscribe_then_unsubscribe_restores_subscribers() {
    let mut broker = ChannelBroker::new();
    broker.subscribe(ChannelKind::Audit, "a".to_string());
    broker.subscribe(ChannelKind::Audit, "b".to_string());
    broker.subscribe(ChannelKind::Audit, "a".to_string());
    assert_eq!(broker.stats(ChannelKind::Audit).subscriber_count, 2);
    broker.unsubscribe(ChannelKind::Audit, &"b".to_string());
    assert_eq!(broker.broadcast_targets(ChannelKind::Audit), vec!["a"]);
    broker.unsubscribe(ChannelKind::Audit, &"missing".to_string());
    assert_eq!(broker.broadcast_targets(ChannelKind::Audit), vec!["a"]);
    assert!(broker.broadcast_targets(ChannelKind::Command).is_empty());
}

#[test]
fn history_is_newest_first_per_channel() {
    let mut broker = ChannelBroker::new();
    let first = VsmMessage::command(SystemId::System5, SystemId::System4, MessageKind::Execute, JsonValue::Null, 1);
    let second = VsmMessage::command(SystemId::System5, SystemId::System3, MessageKind::Execute, JsonValue::Null, 2);
    let first_id = first.id.clone();
    let second_id = second.id.clone();
    broker.retain(first);
    broker.retain(second);
    let history = broker.history(ChannelKind::Command);
    assert_eq!(history.len(), 2);
    assert_eq!(history[0].id, second_id);
    assert_eq!(history[1].id, first_id);
    let stats = broker.stats(ChannelKind::Command);
    assert!(stats.active);
    assert_eq!(stats.retained_message_count, 2);
    assert_eq!(broker.stats(ChannelKind::Audit).retained_message_count, 0);
    assert_eq!(HISTORY_LIMIT, 10_000);
}

#[test]
fn severity_parsing_defaults() {
    assert_eq!(parse_severity("critical"), Severity::Critical);
    assert_eq!(parse_severity("high"), Severity::High);
    assert_eq!(parse_severity("low"), Severity::Low);
    assert_eq!(parse_severity("medium"), Severity::Medium);
    assert_eq!(parse_severity("bogus"), Severity::Medium);
    assert_eq!(parse_filter_severity("medium"), Severity::Medium);
    assert_eq!(parse_filter_severity("bogus"), Severity::Low);
    assert_eq!(parse_filter_severity("critical"), Severity::Critical);
}

#[test]
fn signal_classification() {
    assert_eq!(classify_signal(SignalKind::Emergency, Severity::Low), "emergency");
    assert_eq!(classify_signal(SignalKind::Pleasure, Severity::Critical), "emergency");
    assert_eq!(classify_signal(SignalKind::Pain, Severity::High), "threat");
    assert_eq!(classify_signal(SignalKind::Pleasure, Severity::High), "opportunity");
    assert_eq!(classify_signal(SignalKind::Anomaly, Severity::Low), "anomaly");
    assert_eq!(classify_signal(SignalKind::Pain, Severity::Medium), "routine");
    assert_eq!(kind_name(SignalKind::Opportunity), "opportunity");
}

#[test]
fn route_paths() {
    assert_eq!(calculate_route_path("system5", "hierarchical"), vec!["algedonic", "system3", "system4", "system5"]);
    assert_eq!(calculate_route_path("system5", "direct"), vec!["algedonic", "system5"]);
    let route = rule_route("system3".to_string());
    assert_eq!(route.path, vec!["algedonic", "system3"]);
    assert!(!route.bypass);
    assert_eq!(route.reason, "rule_match");
}

#[test]
fn routing_rule_validation() {
    assert_eq!(validate_routing_rules(&[]), Err("no routing rules".to_string()));
    assert_eq!(
        validate_routing_rules(&[rule("ok", "system5"), rule("broken", ""), rule("also", "")]),
        Err("rule broken has no destination".to_string())
    );
    assert_eq!(validate_routing_rules(&[rule("ok", "system5")]), Ok(()));
}

#[test]
fn filter_validation_treats_blank_names_as_empty() {
    let good = create_filter(FilterKind::Severity, "sev".to_string(), Value::Null, true);
    let blank = create_filter(FilterKind::Source, " \t\n".to_string(), Value::Null, true);
    assert_eq!(validate_filters(&[good]), Ok(()));
    assert_eq!(validate_filters(&[blank]), Err("filter name is empty".to_string()));
    assert!(is_blank(""));
    assert!(is_blank("\u{3000} "));
    assert!(!is_blank(" a "));
    assert!(is_white_space('\u{a0}'));
    assert!(!is_white_space('x'));
}

#[test]
fn temporal_buffer_is_newest_first_and_bounded() {
    let mut buffer: Vec<usize> = Vec::new();
    for i in 0..BUFFER_LIMIT + 2 {
        buffer_measurement(&mut buffer, i);
    }
    assert_eq!(buffer.len(), BUFFER_LIMIT);
    assert_eq!(buffer[0], BUFFER_LIMIT + 1);
}

#[test]
fn default_rules_route_by_priority() {
    let rules = default_rules();
    assert_eq!(rules.len(), 3);
    assert_eq!(validate_routing_rules(&rules), Ok(()));
    assert_eq!(route_by_rules(900, &rules).destination, "system5");
    assert_eq!(route_by_rules(850, &rules).destination, "system5");
    assert_eq!(route_by_rules(700, &rules).destination, "system5.policy");
    assert_eq!(route_by_rules(100, &rules).destination, "system3");
    let route = route_by_rules(100, &rules);
    assert_eq!(route.path, vec!["algedonic", "system3"]);
    assert_eq!(route.reason, "rule_match");
}

#[test]
fn routing_without_applicable_rule_goes_to_system3() {
    let mut only_emergency = rule("e", "system5");
    only_emergency.emergency_only = true;
    let mut high = rule("h", "system4");
    high.min_priority_milli = 800;
    assert_eq!(route_by_rules(500, &[only_emergency, high]).destination, "system3");
    // Of equal thresholds the later rule wins.
    assert_eq!(route_by_rules(500, &[rule("a", "first"), rule("b", "second")]).destination, "second");
}

#[test]
fn json_messages_travel_between_outsiders() {
    let message = vsm_rs::channels::json_message(ChannelKind::TemporalVariety, JsonValue::Bool(true), 4);
    assert_eq!(message.from, SystemId::External);
    assert_eq!(message.to, SystemId::External);
    assert_eq!(message.kind, MessageKind::Other("json".to_string()));
    assert_eq!(message.timestamp, 4);
    assert!(message.validate().is_ok());
}

#[test]
fn algedonic_processor_counts_and_keeps_accepted_signals() {
    let mut processor: AlgedonicState<u32> =
        AlgedonicState::new(AlgedonicArgs { filters: vec![], routing_rules: default_rules() });
    let route = route_by_rules(900, &default_rules());
    processor.record_signal(1, Some(route));
    processor.record_signal(2, None);
    let metrics = processor.metrics();
    assert_eq!(metrics.active_signals, 1);
    assert_eq!(metrics.accepted, 1);
    assert_eq!(metrics.rejected, 1);
    assert_eq!(metrics.routes, 1);
    assert_eq!(processor.active_signals(), &vec![1]);
    assert_eq!(processor.routes()[0].destination, "system5");
    let bad = vec![create_filter(FilterKind::Priority, " ".to_string(), Value::Null, true)];
    assert_eq!(processor.configure_filters(bad), Err("filter name is empty".to_string()));
    assert!(processor.filters().is_empty());
}

#[test]
fn algedonic_processor_keeps_the_first_thousand_active_signals() {
    let mut processor: AlgedonicState<u32> = AlgedonicState::new(AlgedonicArgs { filters: vec![], routing_rules: vec![] });
    for i in 0..1001u32 {
        processor.record_signal(i, Some(route_by_rules(0, &[])));
    }
    assert_eq!(processor.metrics().active_signals, 1000);
    assert_eq!(processor.active_signals()[999], 999);
    assert_eq!(processor.metrics().accepted, 1001);
    assert_eq!(processor.metrics().routes, 1001);
}

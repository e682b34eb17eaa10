use vsm_rs::dup::Duplicate;
use vsm_rs::protocol::envelope::ProtocolMetadata;
use vsm_rs::error::FrameworkError;
use vsm_rs::kernel::system3::ControlState;
use vsm_rs::kernel::system4::{
    feasibility_constraints, feasibility_summary, fill_provenance, observation_freshness, record_observation_failure,
    record_observations, refresh_source_freshness, system4_actor_name, system4_source_actor_name, IntelligenceHistory,
    ProposalRouting, ScenarioRouting, SourceAnswer, SourceRegistry, feasibility_from_system3_snapshot,
};
use vsm_rs::protocol::address::{RecursionPath, RuntimeId, SubsystemRole, VsmAddress};
use vsm_rs::protocol::system3::{DirectiveAcknowledgement, OperationalDirective, OperationalDirectiveKind};
use vsm_rs::protocol::system4::{
    EnvironmentSourceDescriptor, EnvironmentSourceStatus, EnvironmentalObservation, Forecast, FreshnessStatus,
    IntelligenceAssessment, InterpretedSignal, SignalKind,
};

#[test]
fn freshness_without_limit_is_fresh() {
    assert_eq!(observation_freshness(0, 1_000_000, None), FreshnessStatus::Fresh);
}

#[test]
fn freshness_follows_the_age_of_the_observation() {
    assert_eq!(observation_freshness(1_000, 1_500, Some(500)), FreshnessStatus::Fresh);
    assert_eq!(observation_freshness(1_000, 1_501, Some(500)), FreshnessStatus::Stale);
    assert_eq!(observation_freshness(1_000, 2_000, Some(500)), FreshnessStatus::Stale);
    assert_eq!(observation_freshness(1_000, 2_001, Some(500)), FreshnessStatus::Expired);
    // An observation from the future counts as fresh.
    assert_eq!(observation_freshness(5_000, 1_000, Some(10)), FreshnessStatus::Fresh);
}

#[test]
fn freshness_never_improves_with_time() {
    let mut previous = 0;
    for now in [0i64, 100, 200, 250, 300, 400, 1_000] {
        let rank = match observation_freshness(0, now, Some(100)) {
            FreshnessStatus::Fresh => 0,
            FreshnessStatus::Stale => 1,
            FreshnessStatus::Expired => 2,
        };
        assert!(rank >= previous);
        previous = rank;
    }
}

#[test]
fn duplicate_source_is_refused() {
    let mut registry = SourceRegistry::new();
    let status = registry.register_source(EnvironmentSourceDescriptor::new("market".to_string())).unwrap();
    assert_eq!(status.observation_count, 0);
    assert_eq!(status.freshness, FreshnessStatus::Fresh);
    match registry.register_source(EnvironmentSourceDescriptor::new("market".to_string())) {
        Err(FrameworkError::InvalidProtocol { reason }) => {
            assert_eq!(reason, "System 4 source already registered: market")
        }
        _ => panic!("expected refusal"),
    }
    assert_eq!(registry.statuses().len(), 1);
}

#[test]
fn observations_update_count_time_and_freshness() {
    let descriptor = EnvironmentSourceDescriptor::new("s".to_string()).with_stale_after(100);
    let mut status = EnvironmentSourceStatus::new(descriptor);
    status.last_error = Some("old".to_string());
    record_observations(&mut status, &vec![10, 30, 20], 50);
    assert_eq!(status.observation_count, 3);
    assert_eq!(status.last_observed_at, Some(30));
    assert_eq!(status.last_error, None);
    assert_eq!(status.freshness, FreshnessStatus::Fresh);
    // An empty batch counts the observation time as now.
    record_observations(&mut status, &vec![], 500);
    assert_eq!(status.observation_count, 3);
    assert_eq!(status.last_observed_at, Some(500));
    refresh_source_freshness(&mut status, 750);
    assert_eq!(status.freshness, FreshnessStatus::Expired);
}

#[test]
fn failed_observation_marks_source_stale() {
    let mut status = EnvironmentSourceStatus::new(EnvironmentSourceDescriptor::new("s".to_string()));
    record_observation_failure(&mut status, &"timeout".to_string(), None);
    assert_eq!(status.restart_count, 1);
    assert_eq!(status.freshness, FreshnessStatus::Stale);
    assert_eq!(status.last_error.as_deref(), Some("timeout"));
    record_observation_failure(&mut status, &"timeout".to_string(), Some("spawn".to_string()));
    assert_eq!(status.restart_count, 2);
    assert_eq!(status.last_error.as_deref(), Some("timeout; restart failed: spawn"));
}

#[test]
fn unreachable_sources_are_listed_as_stale() {
    let mut registry = SourceRegistry::new();
    registry.register_source(EnvironmentSourceDescriptor::new("a".to_string())).unwrap();
    registry.register_source(EnvironmentSourceDescriptor::new("b".to_string())).unwrap();
    registry.mark_unreachable(&"b".to_string(), "down".to_string());
    registry.mark_unreachable(&"missing".to_string(), "down".to_string());
    let stale = registry.stale_sources();
    assert_eq!(stale.len(), 1);
    assert_eq!(stale[0].descriptor.source_id, "b");
    assert_eq!(stale[0].last_error.as_deref(), Some("down"));
}

#[test]
fn status_updates_replace_the_source() {
    let mut registry = SourceRegistry::new();
    registry.register_source(EnvironmentSourceDescriptor::new("a".to_string())).unwrap();
    let mut status = EnvironmentSourceStatus::new(EnvironmentSourceDescriptor::new("a".to_string()));
    status.observation_count = 7;
    registry.update_status(&"a".to_string(), status);
    assert_eq!(registry.statuses()[0].observation_count, 7);
}

#[test]
fn provenance_is_filled_only_when_missing() {
    let kept = fill_provenance(vec!["own".to_string()], &"a1".to_string(), "forecast", &Some("f1".to_string()));
    assert_eq!(kept, vec!["own"]);
    let filled = fill_provenance(vec![], &"a1".to_string(), "forecast", &Some("f1".to_string()));
    assert_eq!(filled, vec!["assessment:a1", "forecast:f1"]);
    let only_assessment = fill_provenance(vec![], &"a1".to_string(), "scenario", &None);
    assert_eq!(only_assessment, vec!["assessment:a1"]);
}

#[test]
fn feasibility_summary_reports_snapshot_counts() {
    let mut control = ControlState::new();
    let directive = OperationalDirective::new(OperationalDirectiveKind::Resume, vec!["u".to_string()], "go".to_string(), 1);
    let failed = DirectiveAcknowledgement::failed(&directive, "u".to_string(), "x".to_string(), 2);
    control.govern_resources(vec![], vec![], vec![], vec![directive], &vsm_rs::protocol::address::VsmAddress::new(
        RuntimeId::from_string("rt".to_string()),
        vsm_rs::protocol::address::RecursionPath::root(),
        vsm_rs::protocol::address::SubsystemRole::System3,
    ), 3);
    control.record_directive_acknowledgements(vec![failed], 4);
    let snapshot = control.snapshot();
    assert_eq!(
        feasibility_summary(&Some(snapshot), None),
        "System 3 snapshot observed: 0 allocations, 1 directives, 0 audit responses"
    );
    assert_eq!(feasibility_summary(&None, None), "System 3 snapshot unavailable");
    assert_eq!(feasibility_summary(&None, Some("no reply".to_string())), "no reply");
    let constraints = feasibility_constraints(&control.snapshot());
    assert_eq!(constraints, vec!["1 affected units, 0 failed acknowledgements", "1 affected units, 1 failed acknowledgements"]);
}

#[test]
fn system4_actor_names() {
    let rt = RuntimeId::from_string("rt".to_string());
    assert_eq!(system4_actor_name(&rt, "intelligence"), "typed.rt.system4.intelligence");
    assert_eq!(system4_source_actor_name(&rt, "market"), "typed.rt.system4.source.market");
}

fn signal(id: &str) -> InterpretedSignal {
    InterpretedSignal {
        metadata: ProtocolMetadata::new(),
        signal_id: id.to_string(),
        source_id: Some("a".to_string()),
        observation_id: None,
        kind: SignalKind::Opportunity,
        detected_at: 31,
        expires_at: None,
        rationale: None,
        provenance: vec![],
    }
}

fn assessment(id: &str) -> IntelligenceAssessment {
    IntelligenceAssessment {
        metadata: ProtocolMetadata::new(),
        assessment_id: id.to_string(),
        generated_at: 32,
        signal_ids: vec!["s1".to_string(), "s2".to_string()],
        summary: None,
        recommendations: vec![],
    }
}

fn forecast(id: &str) -> Forecast {
    Forecast {
        metadata: ProtocolMetadata::new(),
        forecast_id: id.to_string(),
        assessment_id: Some("a1".to_string()),
        generated_at: 33,
        horizon_ms: 60_000,
        model: None,
        provenance: vec![],
    }
}

#[test]
fn intelligence_cycle_completes_and_records() {
    let mut registry = SourceRegistry::new();
    registry.register_source(EnvironmentSourceDescriptor::new("a".to_string())).unwrap();
    registry.mark_unreachable(&"a".to_string(), "down".to_string());
    let mut history = IntelligenceHistory::new();
    let rt = RuntimeId::from_string("rt".to_string());
    let elsewhere = VsmAddress::new(RuntimeId::from_string("x".to_string()), RecursionPath::root(), SubsystemRole::System3);
    let cycle = history.run_cycle(
        &registry,
        vec![EnvironmentalObservation::new("a".to_string(), 30)],
        vec![signal("s1"), signal("s2")],
        assessment("a1"),
        vec![forecast("f1")],
        vec![
            ScenarioRouting { metadata: ProtocolMetadata::new(), scenario_id: "sc1".to_string(), forecast_id: Some("f1".to_string()), provenance: vec![] },
            ScenarioRouting { metadata: ProtocolMetadata::new(), scenario_id: "sc2".to_string(), forecast_id: None, provenance: vec!["own".to_string()] },
        ],
        vec![
            ProposalRouting {
                metadata: ProtocolMetadata::new(),
                proposal_id: "p1".to_string(),
                scenario_id: Some("sc1".to_string()),
                title: "expand".to_string(),
                generated_at: 40,
                destination: None,
                provenance: vec![],
            },
            ProposalRouting {
                metadata: ProtocolMetadata::new(),
                proposal_id: "p2".to_string(),
                scenario_id: None,
                title: "hold".to_string(),
                generated_at: 41,
                destination: Some(elsewhere.clone()),
                provenance: vec![],
            },
        ],
        &rt,
        &RecursionPath::root(),
        42,
    );
    assert_eq!(cycle.scenarios[0].provenance, vec!["assessment:a1", "forecast:f1"]);
    assert_eq!(cycle.scenarios[1].provenance, vec!["own"]);
    let home = cycle.proposals[0].destination.clone().unwrap();
    assert_eq!(home.role, SubsystemRole::System5);
    assert_eq!(home.runtime_id.as_str(), "rt");
    assert_eq!(cycle.proposals[0].provenance, vec!["assessment:a1", "scenario:sc1"]);
    assert_eq!(cycle.proposals[1].destination, Some(elsewhere));
    assert_eq!(cycle.proposals[1].provenance, vec!["assessment:a1"]);
    assert_eq!(cycle.stale_sources.len(), 1);
    assert_eq!(cycle.generated_at, 42);
    assert_eq!(cycle.observations.len(), 1);
    assert_eq!(cycle.signals.len(), 2);
    assert_eq!(cycle.signals[1].signal_id, "s2");
    assert_eq!(cycle.signals[0].metadata.source.clone().unwrap().role, SubsystemRole::System4);
    assert_eq!(cycle.assessment.assessment_id, "a1");
    assert_eq!(cycle.assessment.metadata.source.clone().unwrap().role, SubsystemRole::System4);
    assert_eq!(cycle.forecasts[0].metadata.source.clone().unwrap().runtime_id.as_str(), "rt");
    assert_eq!(cycle.forecasts[0].horizon_ms, 60_000);
    let source = cycle.scenarios[0].metadata.source.clone().unwrap();
    assert_eq!(source.role, SubsystemRole::System4);
    assert_eq!(source.runtime_id.as_str(), "rt");
    assert_eq!(cycle.proposals[1].metadata.source.clone().unwrap().role, SubsystemRole::System4);
}

#[test]
fn collected_observations_come_in_source_order() {
    let mut registry = SourceRegistry::new();
    registry.register_source(EnvironmentSourceDescriptor::new("a".to_string())).unwrap();
    registry.register_source(EnvironmentSourceDescriptor::new("b".to_string())).unwrap();
    registry.register_source(EnvironmentSourceDescriptor::new("c".to_string())).unwrap();
    let statuses = registry.statuses();
    let mut a_status = statuses[0].duplicate();
    a_status.observation_count = 2;
    let c_status = statuses[2].duplicate();
    let answers = vec![
        SourceAnswer::Answered {
            status: a_status,
            observations: vec![
                EnvironmentalObservation::new("a".to_string(), 10).with_summary("first".to_string()),
                EnvironmentalObservation::new("a".to_string(), 11),
            ],
        },
        SourceAnswer::Unreachable { error: "timeout".to_string() },
        SourceAnswer::Answered { status: c_status, observations: vec![EnvironmentalObservation::new("c".to_string(), 12)] },
    ];
    let mut history = IntelligenceHistory::new();
    let collected = history.collect_observations(&mut registry, answers);
    assert_eq!(collected.len(), 3);
    assert_eq!(collected[0].summary, Some("first".to_string()));
    assert_eq!(collected[1].observed_at, 11);
    assert_eq!(collected[2].source_id, "c");
    assert!(collected[0].observation_id.starts_with("observation-"));
    let after = registry.statuses();
    assert_eq!(after[0].observation_count, 2);
    assert_eq!(after[1].last_error, Some("timeout".to_string()));
    assert_eq!(after[1].freshness, FreshnessStatus::Stale);
    assert_eq!(after[2].freshness, FreshnessStatus::Fresh);
    assert_eq!(registry.stale_sources().len(), 1);
}

#[test]
fn feasibility_is_assessed_by_system3_of_this_runtime() {
    let rt = RuntimeId::from_string("rt".to_string());
    let unavailable = feasibility_from_system3_snapshot(&None, None, &rt, &RecursionPath::root(), 5);
    assert_eq!(unavailable.requested_at, 5);
    assert_eq!(unavailable.summary, "System 3 snapshot unavailable");
    assert!(unavailable.constraints.is_empty());
    let by = unavailable.assessed_by.unwrap();
    assert_eq!(by.role, SubsystemRole::System3);
    assert_eq!(by.runtime_id.as_str(), "rt");
    let control = ControlState::new();
    let observed = feasibility_from_system3_snapshot(&Some(control.snapshot()), None, &rt, &RecursionPath::root(), 6);
    assert_eq!(observed.summary, "System 3 snapshot observed: 0 allocations, 0 directives, 0 audit responses");
    assert_eq!(observed.assessed_by.unwrap().role, SubsystemRole::System3);
}

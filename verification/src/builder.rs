//! Builder for one runtime instance: configuration, the application's roles and
//! ports, required-role validation and defaults.
//!
//! Roles and ports are handles of the application's choosing (`R`); the actor
//! layer turns a resolved plan into running actors. Durations are milliseconds.

use std::sync::Arc;

use vstd::prelude::*;

use crate::config::RuntimeConfig;
use crate::error::FrameworkError;
use crate::protocol::address::{RecursionPath, RuntimeId};
use crate::text::concat2;

verus! {

/// A role or port of a resolved plan: the one the application supplied, or the
/// runtime's default.
pub enum RoleChoice<R> {
    Provided(Arc<R>),
    Default,
}

/// The choice for an optional slot.
pub open spec fn choice_of<R>(slot: Option<Arc<R>>) -> RoleChoice<R> {
    match slot {
        Some(r) => RoleChoice::Provided(r),
        None => RoleChoice::Default,
    }
}

fn resolve_slot<R>(slot: Option<Arc<R>>) -> (r: RoleChoice<R>)
    ensures
        r == choice_of(slot),
{
    match slot {
        Some(x) => RoleChoice::Provided(x),
        None => RoleChoice::Default,
    }
}

/// The System 1 roles; the work model and unit factory are required.
pub struct System1Roles<R> {
    pub work_model: Arc<R>,
    pub operational_unit_factory: Arc<R>,
    pub unit_selection_policy: RoleChoice<R>,
    pub performance_model: RoleChoice<R>,
    pub variety_model: RoleChoice<R>,
    pub algedonic_policy: RoleChoice<R>,
}

/// The System 2 roles.
pub struct System2Roles<R> {
    pub coordination_policy: RoleChoice<R>,
}

/// The System 3 and 3* roles.
pub struct System3Roles<R> {
    pub resource_governance: RoleChoice<R>,
    pub operational_control_policy: RoleChoice<R>,
    pub auditor: RoleChoice<R>,
}

/// The System 4 roles.
pub struct System4Roles<R> {
    pub environmental_source_factory: RoleChoice<R>,
    pub signal_interpreter: RoleChoice<R>,
    pub intelligence_model: RoleChoice<R>,
    pub forecaster: RoleChoice<R>,
}

/// The System 5 roles.
pub struct System5Roles<R> {
    pub identity_provider: RoleChoice<R>,
    pub values_provider: RoleChoice<R>,
    pub values_evaluator: RoleChoice<R>,
    pub decision_policy: RoleChoice<R>,
    pub crisis_policy: RoleChoice<R>,
}

/// The variety, algedonic and temporal roles.
pub struct VarietyRoles<R> {
    pub variety_engineering_policy: RoleChoice<R>,
    pub algedonic_lifecycle_policy: RoleChoice<R>,
    pub temporal_analysis_policy: RoleChoice<R>,
}

/// The ports through which the runtime reaches the outside.
pub struct RuntimePorts<R> {
    pub state_store: RoleChoice<R>,
    pub event_sink: RoleChoice<R>,
    pub report_sink: RoleChoice<R>,
    pub telemetry_sink: RoleChoice<R>,
    pub alert_sink: RoleChoice<R>,
    pub clock: RoleChoice<R>,
}

/// Everything a runtime needs to start.
pub struct RuntimePlan<R> {
    pub config: RuntimeConfig,
    pub system1: System1Roles<R>,
    pub system2: System2Roles<R>,
    pub system3: System3Roles<R>,
    pub system4: System4Roles<R>,
    pub system5: System5Roles<R>,
    pub variety: VarietyRoles<R>,
    pub ports: RuntimePorts<R>,
}

/// The refusal of a plan that lacks a required System 1 role.
pub open spec fn missing_role(e: FrameworkError, role: Seq<char>) -> bool {
    e matches FrameworkError::InvalidProtocol { reason } && reason@ == "missing required System 1 role: "@ + role
}

/// The error for a missing required System 1 role.
pub fn missing_required_role(role: &str) -> (e: FrameworkError)
    ensures
        missing_role(e, role@),
{
    FrameworkError::InvalidProtocol { reason: concat2("missing required System 1 role: ", role) }
}

/// The builder's slots as plain values.
pub struct BuilderModel<R> {
    pub config: RuntimeConfig,
    pub work_model: Option<Arc<R>>,
    pub operational_unit_factory: Option<Arc<R>>,
    pub unit_selection_policy: Option<Arc<R>>,
    pub performance_model: Option<Arc<R>>,
    pub variety_model: Option<Arc<R>>,
    pub algedonic_policy: Option<Arc<R>>,
    pub coordination_policy: Option<Arc<R>>,
    pub resource_governance: Option<Arc<R>>,
    pub operational_control_policy: Option<Arc<R>>,
    pub auditor: Option<Arc<R>>,
    pub environmental_source_factory: Option<Arc<R>>,
    pub signal_interpreter: Option<Arc<R>>,
    pub intelligence_model: Option<Arc<R>>,
    pub forecaster: Option<Arc<R>>,
    pub identity_provider: Option<Arc<R>>,
    pub values_provider: Option<Arc<R>>,
    pub values_evaluator: Option<Arc<R>>,
    pub decision_policy: Option<Arc<R>>,
    pub crisis_policy: Option<Arc<R>>,
    pub variety_engineering_policy: Option<Arc<R>>,
    pub algedonic_lifecycle_policy: Option<Arc<R>>,
    pub temporal_analysis_policy: Option<Arc<R>>,
    pub state_store: Option<Arc<R>>,
    pub event_sink: Option<Arc<R>>,
    pub report_sink: Option<Arc<R>>,
    pub telemetry_sink: Option<Arc<R>>,
    pub alert_sink: Option<Arc<R>>,
    pub clock: Option<Arc<R>>,
}

/// Builder for one runtime instance.
pub struct VsmBuilder<R> {
    config: RuntimeConfig,
    work_model: Option<Arc<R>>,
    operational_unit_factory: Option<Arc<R>>,
    unit_selection_policy: Option<Arc<R>>,
    performance_model: Option<Arc<R>>,
    variety_model: Option<Arc<R>>,
    algedonic_policy: Option<Arc<R>>,
    coordination_policy: Option<Arc<R>>,
    resource_governance: Option<Arc<R>>,
    operational_control_policy: Option<Arc<R>>,
    auditor: Option<Arc<R>>,
    environmental_source_factory: Option<Arc<R>>,
    signal_interpreter: Option<Arc<R>>,
    intelligence_model: Option<Arc<R>>,
    forecaster: Option<Arc<R>>,
    identity_provider: Option<Arc<R>>,
    values_provider: Option<Arc<R>>,
    values_evaluator: Option<Arc<R>>,
    decision_policy: Option<Arc<R>>,
    crisis_policy: Option<Arc<R>>,
    variety_engineering_policy: Option<Arc<R>>,
    algedonic_lifecycle_policy: Option<Arc<R>>,
    temporal_analysis_policy: Option<Arc<R>>,
    state_store: Option<Arc<R>>,
    event_sink: Option<Arc<R>>,
    report_sink: Option<Arc<R>>,
    telemetry_sink: Option<Arc<R>>,
    alert_sink: Option<Arc<R>>,
    clock: Option<Arc<R>>,
}

impl<R> View for VsmBuilder<R> {
    type V = BuilderModel<R>;

    closed spec fn view(&self) -> BuilderModel<R> {
        BuilderModel {
            config: self.config,
            work_model: self.work_model,
            operational_unit_factory: self.operational_unit_factory,
            unit_selection_policy: self.unit_selection_policy,
            performance_model: self.performance_model,
            variety_model: self.variety_model,
            algedonic_policy: self.algedonic_policy,
            coordination_policy: self.coordination_policy,
            resource_governance: self.resource_governance,
            operational_control_policy: self.operational_control_policy,
            auditor: self.auditor,
            environmental_source_factory: self.environmental_source_factory,
            signal_interpreter: self.signal_interpreter,
            intelligence_model: self.intelligence_model,
            forecaster: self.forecaster,
            identity_provider: self.identity_provider,
            values_provider: self.values_provider,
            values_evaluator: self.values_evaluator,
            decision_policy: self.decision_policy,
            crisis_policy: self.crisis_policy,
            variety_engineering_policy: self.variety_engineering_policy,
            algedonic_lifecycle_policy: self.algedonic_lifecycle_policy,
            temporal_analysis_policy: self.temporal_analysis_policy,
            state_store: self.state_store,
            event_sink: self.event_sink,
            report_sink: self.report_sink,
            telemetry_sink: self.telemetry_sink,
            alert_sink: self.alert_sink,
            clock: self.clock,
        }
    }
}

impl<R> VsmBuilder<R> {
    /// A builder for a fresh runtime identity with the default configuration, no roles
    /// and the default ports.
    pub fn new() -> (r: Self)
        ensures
            r@.config.recursion_path@.len() == 0,
            r@.config.default_work_timeout_ms == crate::config::DEFAULT_WORK_TIMEOUT_MS,
            r@.config.readiness_timeout_ms == crate::config::DEFAULT_READINESS_TIMEOUT_MS,
            r@.config.shutdown_timeout_ms == crate::config::DEFAULT_SHUTDOWN_TIMEOUT_MS,
            r@.config.max_registered_units is None,
            r@.config.event_buffer_capacity == crate::config::DEFAULT_EVENT_BUFFER_CAPACITY,
            r@.work_model is None,
            r@.operational_unit_factory is None,
            r@.unit_selection_policy is None,
            r@.performance_model is None,
            r@.variety_model is None,
            r@.algedonic_policy is None,
            r@.coordination_policy is None,
            r@.resource_governance is None,
            r@.operational_control_policy is None,
            r@.auditor is None,
            r@.environmental_source_factory is None,
            r@.signal_interpreter is None,
            r@.intelligence_model is None,
            r@.forecaster is None,
            r@.identity_provider is None,
            r@.values_provider is None,
            r@.values_evaluator is None,
            r@.decision_policy is None,
            r@.crisis_policy is None,
            r@.variety_engineering_policy is None,
            r@.algedonic_lifecycle_policy is None,
            r@.temporal_analysis_policy is None,
            r@.state_store is None,
            r@.event_sink is None,
            r@.report_sink is None,
            r@.telemetry_sink is None,
            r@.alert_sink is None,
            r@.clock is None,
    {
        VsmBuilder::with_config(RuntimeConfig::new(RuntimeId::new()))
    }

    /// A builder with the given configuration, no roles and the default ports.
    pub fn with_config(config: RuntimeConfig) -> (r: Self)
        ensures
            r@.config == config,
            r@.work_model is None,
            r@.operational_unit_factory is None,
            r@.unit_selection_policy is None,
            r@.performance_model is None,
            r@.variety_model is None,
            r@.algedonic_policy is None,
            r@.coordination_policy is None,
            r@.resource_governance is None,
            r@.operational_control_policy is None,
            r@.auditor is None,
            r@.environmental_source_factory is None,
            r@.signal_interpreter is None,
            r@.intelligence_model is None,
            r@.forecaster is None,
            r@.identity_provider is None,
            r@.values_provider is None,
            r@.values_evaluator is None,
            r@.decision_policy is None,
            r@.crisis_policy is None,
            r@.variety_engineering_policy is None,
            r@.algedonic_lifecycle_policy is None,
            r@.temporal_analysis_policy is None,
            r@.state_store is None,
            r@.event_sink is None,
            r@.report_sink is None,
            r@.telemetry_sink is None,
            r@.alert_sink is None,
            r@.clock is None,
    {
        VsmBuilder {
            config,
            work_model: None,
            operational_unit_factory: None,
            unit_selection_policy: None,
            performance_model: None,
            variety_model: None,
            algedonic_policy: None,
            coordination_policy: None,
            resource_governance: None,
            operational_control_policy: None,
            auditor: None,
            environmental_source_factory: None,
            signal_interpreter: None,
            intelligence_model: None,
            forecaster: None,
            identity_provider: None,
            values_provider: None,
            values_evaluator: None,
            decision_policy: None,
            crisis_policy: None,
            variety_engineering_policy: None,
            algedonic_lifecycle_policy: None,
            temporal_analysis_policy: None,
            state_store: None,
            event_sink: None,
            report_sink: None,
            telemetry_sink: None,
            alert_sink: None,
            clock: None,
        }
    }

    /// Replaces the whole configuration.
    pub fn config(self, config: RuntimeConfig) -> (r: Self)
        ensures
            r@ == (BuilderModel { config, ..self@ }),
    {
        VsmBuilder { config, ..self }
    }

    /// Sets the runtime identity.
    pub fn runtime_id(self, runtime_id: RuntimeId) -> (r: Self)
        ensures
            r@ == (BuilderModel { config: RuntimeConfig { runtime_id, ..self@.config }, ..self@ }),
    {
        VsmBuilder { config: RuntimeConfig { runtime_id, ..self.config }, ..self }
    }

    /// Sets the recursion path.
    pub fn recursion_path(self, recursion_path: RecursionPath) -> (r: Self)
        ensures
            r@ == (BuilderModel { config: RuntimeConfig { recursion_path, ..self@.config }, ..self@ }),
    {
        VsmBuilder { config: RuntimeConfig { recursion_path, ..self.config }, ..self }
    }

    /// Sets the default work timeout.
    pub fn default_work_timeout(self, timeout_ms: u64) -> (r: Self)
        ensures
            r@ == (BuilderModel { config: RuntimeConfig { default_work_timeout_ms: timeout_ms, ..self@.config }, ..self@ }),
    {
        VsmBuilder { config: RuntimeConfig { default_work_timeout_ms: timeout_ms, ..self.config }, ..self }
    }

    /// Sets the readiness timeout.
    pub fn readiness_timeout(self, timeout_ms: u64) -> (r: Self)
        ensures
            r@ == (BuilderModel { config: RuntimeConfig { readiness_timeout_ms: timeout_ms, ..self@.config }, ..self@ }),
    {
        VsmBuilder { config: RuntimeConfig { readiness_timeout_ms: timeout_ms, ..self.config }, ..self }
    }

    /// Sets the shutdown timeout.
    pub fn shutdown_timeout(self, timeout_ms: u64) -> (r: Self)
        ensures
            r@ == (BuilderModel { config: RuntimeConfig { shutdown_timeout_ms: timeout_ms, ..self@.config }, ..self@ }),
    {
        VsmBuilder { config: RuntimeConfig { shutdown_timeout_ms: timeout_ms, ..self.config }, ..self }
    }

    /// Limits how many units can be registered.
    pub fn max_registered_units(self, max_units: usize) -> (r: Self)
        ensures
            r@ == (BuilderModel { config: RuntimeConfig { max_registered_units: Some(max_units), ..self@.config }, ..self@ }),
    {
        VsmBuilder { config: RuntimeConfig { max_registered_units: Some(max_units), ..self.config }, ..self }
    }

    /// Removes the registered-unit limit.
    pub fn unbounded_registered_units(self) -> (r: Self)
        ensures
            r@ == (BuilderModel { config: RuntimeConfig { max_registered_units: None, ..self@.config }, ..self@ }),
    {
        VsmBuilder { config: RuntimeConfig { max_registered_units: None, ..self.config }, ..self }
    }

    /// Sets the observer event buffer capacity.
    pub fn event_buffer_capacity(self, capacity: usize) -> (r: Self)
        ensures
            r@ == (BuilderModel { config: RuntimeConfig { event_buffer_capacity: capacity, ..self@.config }, ..self@ }),
    {
        VsmBuilder { config: RuntimeConfig { event_buffer_capacity: capacity, ..self.config }, ..self }
    }

    /// Supplies the work model.
    pub fn work_model(self, work_model: R) -> (r: Self)
        ensures
            r@ == (BuilderModel { work_model: Some(Arc::new(work_model)), ..self@ }),
    {
        VsmBuilder { work_model: Some(Arc::new(work_model)), ..self }
    }

    /// Supplies the work model, already shared.
    pub fn work_model_arc(self, work_model: Arc<R>) -> (r: Self)
        ensures
            r@ == (BuilderModel { work_model: Some(work_model), ..self@ }),
    {
        VsmBuilder { work_model: Some(work_model), ..self }
    }

    /// Supplies the operational unit factory.
    pub fn operational_unit_factory(self, factory: R) -> (r: Self)
        ensures
            r@ == (BuilderModel { operational_unit_factory: Some(Arc::new(factory)), ..self@ }),
    {
        VsmBuilder { operational_unit_factory: Some(Arc::new(factory)), ..self }
    }

    /// Supplies the operational unit factory, already shared.
    pub fn operational_unit_factory_arc(self, factory: Arc<R>) -> (r: Self)
        ensures
            r@ == (BuilderModel { operational_unit_factory: Some(factory), ..self@ }),
    {
        VsmBuilder { operational_unit_factory: Some(factory), ..self }
    }

    /// Supplies the unit selection policy.
    pub fn unit_selection_policy(self, policy: R) -> (r: Self)
        ensures
            r@ == (BuilderModel { unit_selection_policy: Some(Arc::new(policy)), ..self@ }),
    {
        VsmBuilder { unit_selection_policy: Some(Arc::new(policy)), ..self }
    }

    /// Supplies the unit selection policy, already shared.
    pub fn unit_selection_policy_arc(self, policy: Arc<R>) -> (r: Self)
        ensures
            r@ == (BuilderModel { unit_selection_policy: Some(policy), ..self@ }),
    {
        VsmBuilder { unit_selection_policy: Some(policy), ..self }
    }

    /// Supplies the performance model.
    pub fn performance_model(self, model: R) -> (r: Self)
        ensures
            r@ == (BuilderModel { performance_model: Some(Arc::new(model)), ..self@ }),
    {
        VsmBuilder { performance_model: Some(Arc::new(model)), ..self }
    }

    /// Supplies the performance model, already shared.
    pub fn performance_model_arc(self, model: Arc<R>) -> (r: Self)
        ensures
            r@ == (BuilderModel { performance_model: Some(model), ..self@ }),
    {
        VsmBuilder { performance_model: Some(model), ..self }
    }

    /// Supplies the variety model.
    pub fn variety_model(self, model: R) -> (r: Self)
        ensures
            r@ == (BuilderModel { variety_model: Some(Arc::new(model)), ..self@ }),
    {
        VsmBuilder { variety_model: Some(Arc::new(model)), ..self }
    }

    /// Supplies the variety model, already shared.
    pub fn variety_model_arc(self, model: Arc<R>) -> (r: Self)
        ensures
            r@ == (BuilderModel { variety_model: Some(model), ..self@ }),
    {
        VsmBuilder { variety_model: Some(model), ..self }
    }

    /// Supplies the algedonic policy.
    pub fn algedonic_policy(self, policy: R) -> (r: Self)
        ensures
            r@ == (BuilderModel { algedonic_policy: Some(Arc::new(policy)), ..self@ }),
    {
        VsmBuilder { algedonic_policy: Some(Arc::new(policy)), ..self }
    }

    /// Supplies the algedonic policy, already shared.
    pub fn algedonic_policy_arc(self, policy: Arc<R>) -> (r: Self)
        ensures
            r@ == (BuilderModel { algedonic_policy: Some(policy), ..self@ }),
    {
        VsmBuilder { algedonic_policy: Some(policy), ..self }
    }

    /// Supplies the System 2 coordination policy.
    pub fn coordination_policy(self, policy: R) -> (r: Self)
        ensures
            r@ == (BuilderModel { coordination_policy: Some(Arc::new(policy)), ..self@ }),
    {
        VsmBuilder { coordination_policy: Some(Arc::new(policy)), ..self }
    }

    /// Supplies the System 2 coordination policy, already shared.
    pub fn coordination_policy_arc(self, policy: Arc<R>) -> (r: Self)
        ensures
            r@ == (BuilderModel { coordination_policy: Some(policy), ..self@ }),
    {
        VsmBuilder { coordination_policy: Some(policy), ..self }
    }

    /// Supplies the System 3 resource governance.
    pub fn resource_governance(self, governance: R) -> (r: Self)
        ensures
            r@ == (BuilderModel { resource_governance: Some(Arc::new(governance)), ..self@ }),
    {
        VsmBuilder { resource_governance: Some(Arc::new(governance)), ..self }
    }

    /// Supplies the System 3 resource governance, already shared.
    pub fn resource_governance_arc(self, governance: Arc<R>) -> (r: Self)
        ensures
            r@ == (BuilderModel { resource_governance: Some(governance), ..self@ }),
    {
        VsmBuilder { resource_governance: Some(governance), ..self }
    }

    /// Supplies the System 3 operational control policy.
    pub fn operational_control_policy(self, policy: R) -> (r: Self)
        ensures
            r@ == (BuilderModel { operational_control_policy: Some(Arc::new(policy)), ..self@ }),
    {
        VsmBuilder { operational_control_policy: Some(Arc::new(policy)), ..self }
    }

    /// Supplies the System 3 operational control policy, already shared.
    pub fn operational_control_policy_arc(self, policy: Arc<R>) -> (r: Self)
        ensures
            r@ == (BuilderModel { operational_control_policy: Some(policy), ..self@ }),
    {
        VsmBuilder { operational_control_policy: Some(policy), ..self }
    }

    /// Supplies the System 3* auditor.
    pub fn auditor(self, auditor: R) -> (r: Self)
        ensures
            r@ == (BuilderModel { auditor: Some(Arc::new(auditor)), ..self@ }),
    {
        VsmBuilder { auditor: Some(Arc::new(auditor)), ..self }
    }

    /// Supplies the System 3* auditor, already shared.
    pub fn auditor_arc(self, auditor: Arc<R>) -> (r: Self)
        ensures
            r@ == (BuilderModel { auditor: Some(auditor), ..self@ }),
    {
        VsmBuilder { auditor: Some(auditor), ..self }
    }

    /// Supplies the System 4 environmental source factory.
    pub fn environmental_source_factory(self, factory: R) -> (r: Self)
        ensures
            r@ == (BuilderModel { environmental_source_factory: Some(Arc::new(factory)), ..self@ }),
    {
        VsmBuilder { environmental_source_factory: Some(Arc::new(factory)), ..self }
    }

    /// Supplies the System 4 environmental source factory, already shared.
    pub fn environmental_source_factory_arc(self, factory: Arc<R>) -> (r: Self)
        ensures
            r@ == (BuilderModel { environmental_source_factory: Some(factory), ..self@ }),
    {
        VsmBuilder { environmental_source_factory: Some(factory), ..self }
    }

    /// Supplies the System 4 signal interpreter.
    pub fn signal_interpreter(self, interpreter: R) -> (r: Self)
        ensures
            r@ == (BuilderModel { signal_interpreter: Some(Arc::new(interpreter)), ..self@ }),
    {
        VsmBuilder { signal_interpreter: Some(Arc::new(interpreter)), ..self }
    }

    /// Supplies the System 4 signal interpreter, already shared.
    pub fn signal_interpreter_arc(self, interpreter: Arc<R>) -> (r: Self)
        ensures
            r@ == (BuilderModel { signal_interpreter: Some(interpreter), ..self@ }),
    {
        VsmBuilder { signal_interpreter: Some(interpreter), ..self }
    }

    /// Supplies the System 4 intelligence model.
    pub fn intelligence_model(self, model: R) -> (r: Self)
        ensures
            r@ == (BuilderModel { intelligence_model: Some(Arc::new(model)), ..self@ }),
    {
        VsmBuilder { intelligence_model: Some(Arc::new(model)), ..self }
    }

    /// Supplies the System 4 intelligence model, already shared.
    pub fn intelligence_model_arc(self, model: Arc<R>) -> (r: Self)
        ensures
            r@ == (BuilderModel { intelligence_model: Some(model), ..self@ }),
    {
        VsmBuilder { intelligence_model: Some(model), ..self }
    }

    /// Supplies the System 4 forecaster.
    pub fn forecaster(self, forecaster: R) -> (r: Self)
        ensures
            r@ == (BuilderModel { forecaster: Some(Arc::new(forecaster)), ..self@ }),
    {
        VsmBuilder { forecaster: Some(Arc::new(forecaster)), ..self }
    }

    /// Supplies the System 4 forecaster, already shared.
    pub fn forecaster_arc(self, forecaster: Arc<R>) -> (r: Self)
        ensures
            r@ == (BuilderModel { forecaster: Some(forecaster), ..self@ }),
    {
        VsmBuilder { forecaster: Some(forecaster), ..self }
    }

    /// Supplies the System 5 identity provider.
    pub fn identity_provider(self, provider: R) -> (r: Self)
        ensures
            r@ == (BuilderModel { identity_provider: Some(Arc::new(provider)), ..self@ }),
    {
        VsmBuilder { identity_provider: Some(Arc::new(provider)), ..self }
    }

    /// Supplies the System 5 identity provider, already shared.
    pub fn identity_provider_arc(self, provider: Arc<R>) -> (r: Self)
        ensures
            r@ == (BuilderModel { identity_provider: Some(provider), ..self@ }),
    {
        VsmBuilder { identity_provider: Some(provider), ..self }
    }

    /// Supplies the System 5 values provider.
    pub fn values_provider(self, provider: R) -> (r: Self)
        ensures
            r@ == (BuilderModel { values_provider: Some(Arc::new(provider)), ..self@ }),
    {
        VsmBuilder { values_provider: Some(Arc::new(provider)), ..self }
    }

    /// Supplies the System 5 values provider, already shared.
    pub fn values_provider_arc(self, provider: Arc<R>) -> (r: Self)
        ensures
            r@ == (BuilderModel { values_provider: Some(provider), ..self@ }),
    {
        VsmBuilder { values_provider: Some(provider), ..self }
    }

    /// Supplies the System 5 values evaluator.
    pub fn values_evaluator(self, evaluator: R) -> (r: Self)
        ensures
            r@ == (BuilderModel { values_evaluator: Some(Arc::new(evaluator)), ..self@ }),
    {
        VsmBuilder { values_evaluator: Some(Arc::new(evaluator)), ..self }
    }

    /// Supplies the System 5 values evaluator, already shared.
    pub fn values_evaluator_arc(self, evaluator: Arc<R>) -> (r: Self)
        ensures
            r@ == (BuilderModel { values_evaluator: Some(evaluator), ..self@ }),
    {
        VsmBuilder { values_evaluator: Some(evaluator), ..self }
    }

    /// Supplies the System 5 decision policy.
    pub fn decision_policy(self, policy: R) -> (r: Self)
        ensures
            r@ == (BuilderModel { decision_policy: Some(Arc::new(policy)), ..self@ }),
    {
        VsmBuilder { decision_policy: Some(Arc::new(policy)), ..self }
    }

    /// Supplies the System 5 decision policy, already shared.
    pub fn decision_policy_arc(self, policy: Arc<R>) -> (r: Self)
        ensures
            r@ == (BuilderModel { decision_policy: Some(policy), ..self@ }),
    {
        VsmBuilder { decision_policy: Some(policy), ..self }
    }

    /// Supplies the System 5 crisis policy.
    pub fn crisis_policy(self, policy: R) -> (r: Self)
        ensures
            r@ == (BuilderModel { crisis_policy: Some(Arc::new(policy)), ..self@ }),
    {
        VsmBuilder { crisis_policy: Some(Arc::new(policy)), ..self }
    }

    /// Supplies the System 5 crisis policy, already shared.
    pub fn crisis_policy_arc(self, policy: Arc<R>) -> (r: Self)
        ensures
            r@ == (BuilderModel { crisis_policy: Some(policy), ..self@ }),
    {
        VsmBuilder { crisis_policy: Some(policy), ..self }
    }

    /// Supplies the variety engineering policy.
    pub fn variety_engineering_policy(self, policy: R) -> (r: Self)
        ensures
            r@ == (BuilderModel { variety_engineering_policy: Some(Arc::new(policy)), ..self@ }),
    {
        VsmBuilder { variety_engineering_policy: Some(Arc::new(policy)), ..self }
    }

    /// Supplies the variety engineering policy, already shared.
    pub fn variety_engineering_policy_arc(self, policy: Arc<R>) -> (r: Self)
        ensures
            r@ == (BuilderModel { variety_engineering_policy: Some(policy), ..self@ }),
    {
        VsmBuilder { variety_engineering_policy: Some(policy), ..self }
    }

    /// Supplies the algedonic lifecycle policy.
    pub fn algedonic_lifecycle_policy(self, policy: R) -> (r: Self)
        ensures
            r@ == (BuilderModel { algedonic_lifecycle_policy: Some(Arc::new(policy)), ..self@ }),
    {
        VsmBuilder { algedonic_lifecycle_policy: Some(Arc::new(policy)), ..self }
    }

    /// Supplies the algedonic lifecycle policy, already shared.
    pub fn algedonic_lifecycle_policy_arc(self, policy: Arc<R>) -> (r: Self)
        ensures
            r@ == (BuilderModel { algedonic_lifecycle_policy: Some(policy), ..self@ }),
    {
        VsmBuilder { algedonic_lifecycle_policy: Some(policy), ..self }
    }

    /// Supplies the temporal analysis policy.
    pub fn temporal_analysis_policy(self, policy: R) -> (r: Self)
        ensures
            r@ == (BuilderModel { temporal_analysis_policy: Some(Arc::new(policy)), ..self@ }),
    {
        VsmBuilder { temporal_analysis_policy: Some(Arc::new(policy)), ..self }
    }

    /// Supplies the temporal analysis policy, already shared.
    pub fn temporal_analysis_policy_arc(self, policy: Arc<R>) -> (r: Self)
        ensures
            r@ == (BuilderModel { temporal_analysis_policy: Some(policy), ..self@ }),
    {
        VsmBuilder { temporal_analysis_policy: Some(policy), ..self }
    }

    /// Supplies the state store.
    pub fn state_store(self, state_store: R) -> (r: Self)
        ensures
            r@ == (BuilderModel { state_store: Some(Arc::new(state_store)), ..self@ }),
    {
        VsmBuilder { state_store: Some(Arc::new(state_store)), ..self }
    }

    /// Supplies the state store, already shared.
    pub fn state_store_arc(self, state_store: Arc<R>) -> (r: Self)
        ensures
            r@ == (BuilderModel { state_store: Some(state_store), ..self@ }),
    {
        VsmBuilder { state_store: Some(state_store), ..self }
    }

    /// Supplies the event sink.
    pub fn event_sink(self, sink: R) -> (r: Self)
        ensures
            r@ == (BuilderModel { event_sink: Some(Arc::new(sink)), ..self@ }),
    {
        VsmBuilder { event_sink: Some(Arc::new(sink)), ..self }
    }

    /// Supplies the event sink, already shared.
    pub fn event_sink_arc(self, sink: Arc<R>) -> (r: Self)
        ensures
            r@ == (BuilderModel { event_sink: Some(sink), ..self@ }),
    {
        VsmBuilder { event_sink: Some(sink), ..self }
    }

    /// Supplies the report sink.
    pub fn report_sink(self, sink: R) -> (r: Self)
        ensures
            r@ == (BuilderModel { report_sink: Some(Arc::new(sink)), ..self@ }),
    {
        VsmBuilder { report_sink: Some(Arc::new(sink)), ..self }
    }

    /// Supplies the report sink, already shared.
    pub fn report_sink_arc(self, sink: Arc<R>) -> (r: Self)
        ensures
            r@ == (BuilderModel { report_sink: Some(sink), ..self@ }),
    {
        VsmBuilder { report_sink: Some(sink), ..self }
    }

    /// Supplies the telemetry sink.
    pub fn telemetry_sink(self, sink: R) -> (r: Self)
        ensures
            r@ == (BuilderModel { telemetry_sink: Some(Arc::new(sink)), ..self@ }),
    {
        VsmBuilder { telemetry_sink: Some(Arc::new(sink)), ..self }
    }

    /// Supplies the telemetry sink, already shared.
    pub fn telemetry_sink_arc(self, sink: Arc<R>) -> (r: Self)
        ensures
            r@ == (BuilderModel { telemetry_sink: Some(sink), ..self@ }),
    {
        VsmBuilder { telemetry_sink: Some(sink), ..self }
    }

    /// Supplies the alert sink.
    pub fn alert_sink(self, sink: R) -> (r: Self)
        ensures
            r@ == (BuilderModel { alert_sink: Some(Arc::new(sink)), ..self@ }),
    {
        VsmBuilder { alert_sink: Some(Arc::new(sink)), ..self }
    }

    /// Supplies the alert sink, already shared.
    pub fn alert_sink_arc(self, sink: Arc<R>) -> (r: Self)
        ensures
            r@ == (BuilderModel { alert_sink: Some(sink), ..self@ }),
    {
        VsmBuilder { alert_sink: Some(sink), ..self }
    }

    /// Supplies the clock.
    pub fn clock(self, clock: R) -> (r: Self)
        ensures
            r@ == (BuilderModel { clock: Some(Arc::new(clock)), ..self@ }),
    {
        VsmBuilder { clock: Some(Arc::new(clock)), ..self }
    }

    /// Supplies the clock, already shared.
    pub fn clock_arc(self, clock: Arc<R>) -> (r: Self)
        ensures
            r@ == (BuilderModel { clock: Some(clock), ..self@ }),
    {
        VsmBuilder { clock: Some(clock), ..self }
    }

    /// Resolves the plan: the System 1 work model and operational unit factory are
    /// required, in that order; every other role and port the application did not supply
    /// is the runtime's default.
    pub fn start(self) -> (r: Result<RuntimePlan<R>, FrameworkError>)
        ensures
            self@.work_model is None ==> (r matches Err(e) && missing_role(e, "WorkModel"@)),
            self@.work_model is Some && self@.operational_unit_factory is None ==> (r matches Err(e) && missing_role(
                e,
                "OperationalUnitFactory"@,
            )),
            r is Ok <==> (self@.work_model is Some && self@.operational_unit_factory is Some),
            r matches Ok(p) ==> {
                &&& p.config == self@.config
                &&& Some(p.system1.work_model) == self@.work_model
                &&& Some(p.system1.operational_unit_factory) == self@.operational_unit_factory
                &&& p.system1.unit_selection_policy == choice_of(self@.unit_selection_policy)
                &&& p.system1.performance_model == choice_of(self@.performance_model)
                &&& p.system1.variety_model == choice_of(self@.variety_model)
                &&& p.system1.algedonic_policy == choice_of(self@.algedonic_policy)
                &&& p.system2.coordination_policy == choice_of(self@.coordination_policy)
                &&& p.system3.resource_governance == choice_of(self@.resource_governance)
                &&& p.system3.operational_control_policy == choice_of(self@.operational_control_policy)
                &&& p.system3.auditor == choice_of(self@.auditor)
                &&& p.system4.environmental_source_factory == choice_of(self@.environmental_source_factory)
                &&& p.system4.signal_interpreter == choice_of(self@.signal_interpreter)
                &&& p.system4.intelligence_model == choice_of(self@.intelligence_model)
                &&& p.system4.forecaster == choice_of(self@.forecaster)
                &&& p.system5.identity_provider == choice_of(self@.identity_provider)
                &&& p.system5.values_provider == choice_of(self@.values_provider)
                &&& p.system5.values_evaluator == choice_of(self@.values_evaluator)
                &&& p.system5.decision_policy == choice_of(self@.decision_policy)
                &&& p.system5.crisis_policy == choice_of(self@.crisis_policy)
                &&& p.variety.variety_engineering_policy == choice_of(self@.variety_engineering_policy)
                &&& p.variety.algedonic_lifecycle_policy == choice_of(self@.algedonic_lifecycle_policy)
                &&& p.variety.temporal_analysis_policy == choice_of(self@.temporal_analysis_policy)
                &&& p.ports.state_store == choice_of(self@.state_store)
                &&& p.ports.event_sink == choice_of(self@.event_sink)
                &&& p.ports.report_sink == choice_of(self@.report_sink)
                &&& p.ports.telemetry_sink == choice_of(self@.telemetry_sink)
                &&& p.ports.alert_sink == choice_of(self@.alert_sink)
                &&& p.ports.clock == choice_of(self@.clock)
            },
    {
        let system1 = match system1_roles(
            self.work_model,
            self.operational_unit_factory,
            self.unit_selection_policy,
            self.performance_model,
            self.variety_model,
            self.algedonic_policy,
        ) {
            Ok(roles) => roles,
            Err(e) => return Err(e),
        };
        Ok(
            RuntimePlan {
                config: self.config,
                system1,
                system2: system2_roles(self.coordination_policy),
                system3: system3_roles(self.resource_governance, self.operational_control_policy, self.auditor),
                system4: system4_roles(
                    self.environmental_source_factory,
                    self.signal_interpreter,
                    self.intelligence_model,
                    self.forecaster,
                ),
                system5: system5_roles(
                    self.identity_provider,
                    self.values_provider,
                    self.values_evaluator,
                    self.decision_policy,
                    self.crisis_policy,
                ),
                variety: variety_roles(
                    self.variety_engineering_policy,
                    self.algedonic_lifecycle_policy,
                    self.temporal_analysis_policy,
                ),
                ports: RuntimePorts {
                    state_store: resolve_slot(self.state_store),
                    event_sink: resolve_slot(self.event_sink),
                    report_sink: resolve_slot(self.report_sink),
                    telemetry_sink: resolve_slot(self.telemetry_sink),
                    alert_sink: resolve_slot(self.alert_sink),
                    clock: resolve_slot(self.clock),
                },
            },
        )
    }
}

/// Resolves the System 1 roles: the work model, then the operational unit factory, are
/// required; the other roles default.
pub fn system1_roles<R>(
    work_model: Option<Arc<R>>,
    operational_unit_factory: Option<Arc<R>>,
    unit_selection_policy: Option<Arc<R>>,
    performance_model: Option<Arc<R>>,
    variety_model: Option<Arc<R>>,
    algedonic_policy: Option<Arc<R>>,
) -> (r: Result<System1Roles<R>, FrameworkError>)
    ensures
        work_model is None ==> (r matches Err(e) && missing_role(e, "WorkModel"@)),
        work_model is Some && operational_unit_factory is None ==> (r matches Err(e) && missing_role(
            e,
            "OperationalUnitFactory"@,
        )),
        r is Ok <==> (work_model is Some && operational_unit_factory is Some),
        r matches Ok(s) ==> {
            &&& Some(s.work_model) == work_model
            &&& Some(s.operational_unit_factory) == operational_unit_factory
            &&& s.unit_selection_policy == choice_of(unit_selection_policy)
            &&& s.performance_model == choice_of(performance_model)
            &&& s.variety_model == choice_of(variety_model)
            &&& s.algedonic_policy == choice_of(algedonic_policy)
        },
{
    let work_model = match work_model {
        Some(m) => m,
        None => return Err(missing_required_role("WorkModel")),
    };
    let operational_unit_factory = match operational_unit_factory {
        Some(f) => f,
        None => return Err(missing_required_role("OperationalUnitFactory")),
    };
    Ok(
        System1Roles {
            work_model,
            operational_unit_factory,
            unit_selection_policy: resolve_slot(unit_selection_policy),
            performance_model: resolve_slot(performance_model),
            variety_model: resolve_slot(variety_model),
            algedonic_policy: resolve_slot(algedonic_policy),
        },
    )
}

/// Resolves the System 2 roles.
pub fn system2_roles<R>(coordination_policy: Option<Arc<R>>) -> (r: System2Roles<R>)
    ensures
        r.coordination_policy == choice_of(coordination_policy),
{
    System2Roles { coordination_policy: resolve_slot(coordination_policy) }
}

/// Resolves the System 3 and 3* roles.
pub fn system3_roles<R>(
    resource_governance: Option<Arc<R>>,
    operational_control_policy: Option<Arc<R>>,
    auditor: Option<Arc<R>>,
) -> (r: System3Roles<R>)
    ensures
        r.resource_governance == choice_of(resource_governance),
        r.operational_control_policy == choice_of(operational_control_policy),
        r.auditor == choice_of(auditor),
{
    System3Roles {
        resource_governance: resolve_slot(resource_governance),
        operational_control_policy: resolve_slot(operational_control_policy),
        auditor: resolve_slot(auditor),
    }
}

/// Resolves the System 4 roles.
pub fn system4_roles<R>(
    environmental_source_factory: Option<Arc<R>>,
    signal_interpreter: Option<Arc<R>>,
    intelligence_model: Option<Arc<R>>,
    forecaster: Option<Arc<R>>,
) -> (r: System4Roles<R>)
    ensures
        r.environmental_source_factory == choice_of(environmental_source_factory),
        r.signal_interpreter == choice_of(signal_interpreter),
        r.intelligence_model == choice_of(intelligence_model),
        r.forecaster == choice_of(forecaster),
{
    System4Roles {
        environmental_source_factory: resolve_slot(environmental_source_factory),
        signal_interpreter: resolve_slot(signal_interpreter),
        intelligence_model: resolve_slot(intelligence_model),
        forecaster: resolve_slot(forecaster),
    }
}

/// Resolves the System 5 roles.
pub fn system5_roles<R>(
    identity_provider: Option<Arc<R>>,
    values_provider: Option<Arc<R>>,
    values_evaluator: Option<Arc<R>>,
    decision_policy: Option<Arc<R>>,
    crisis_policy: Option<Arc<R>>,
) -> (r: System5Roles<R>)
    ensures
        r.identity_provider == choice_of(identity_provider),
        r.values_provider == choice_of(values_provider),
        r.values_evaluator == choice_of(values_evaluator),
        r.decision_policy == choice_of(decision_policy),
        r.crisis_policy == choice_of(crisis_policy),
{
    System5Roles {
        identity_provider: resolve_slot(identity_provider),
        values_provider: resolve_slot(values_provider),
        values_evaluator: resolve_slot(values_evaluator),
        decision_policy: resolve_slot(decision_policy),
        crisis_policy: resolve_slot(crisis_policy),
    }
}

/// Resolves the variety, algedonic and temporal roles.
pub fn variety_roles<R>(
    variety_engineering_policy: Option<Arc<R>>,
    algedonic_lifecycle_policy: Option<Arc<R>>,
    temporal_analysis_policy: Option<Arc<R>>,
) -> (r: VarietyRoles<R>)
    ensures
        r.variety_engineering_policy == choice_of(variety_engineering_policy),
        r.algedonic_lifecycle_policy == choice_of(algedonic_lifecycle_policy),
        r.temporal_analysis_policy == choice_of(temporal_analysis_policy),
{
    VarietyRoles {
        variety_engineering_policy: resolve_slot(variety_engineering_policy),
        algedonic_lifecycle_policy: resolve_slot(algedonic_lifecycle_policy),
        temporal_analysis_policy: resolve_slot(temporal_analysis_policy),
    }
}

} // verus!

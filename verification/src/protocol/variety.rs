//! Variety engineering vocabulary and the plain-value parts of its records.
//!
//! Variety estimates carry floating-point input, output, ratio and confidence; the
//! records here keep their identities, sources, units, notes and times, and the
//! floating-point figures have no field here.

use std::collections::BTreeMap;

use vstd::prelude::*;

use crate::dup::Duplicate;
use crate::protocol::envelope::{ProtocolMetadata, ProtocolMetadataModel};
use crate::protocol::system2::{copy_opt, opt_text};
use crate::protocol::system3::copy_texts;
use crate::text::texts;

verus! {

/// Direction of a variety trend over a retained window.
#[derive(Debug, Clone, Copy, PartialEq, Eq, Structural)]
pub enum VarietyTrend {
    Increasing,
    Decreasing,
    Stable,
    Unknown,
}

/// Kind of variety intervention.
#[derive(Debug, PartialEq, Eq)]
pub enum VarietyInterventionKind {
    Attenuation,
    Amplification,
    Rebalancing,
    Monitoring,
    Custom(String),
}

impl VarietyInterventionKind {
    /// A copy of the kind.
    pub fn copy(&self) -> (r: Self)
        ensures
            r == *self,
    {
        match self {
            VarietyInterventionKind::Attenuation => VarietyInterventionKind::Attenuation,
            VarietyInterventionKind::Amplification => VarietyInterventionKind::Amplification,
            VarietyInterventionKind::Rebalancing => VarietyInterventionKind::Rebalancing,
            VarietyInterventionKind::Monitoring => VarietyInterventionKind::Monitoring,
            VarietyInterventionKind::Custom(s) => VarietyInterventionKind::Custom(s.clone()),
        }
    }
}

/// The identity of a variety estimate: its metadata, trend, dimensions and when it was
/// measured.
pub struct VarietyEstimate {
    pub metadata: ProtocolMetadata,
    pub estimate_id: String,
    pub trend: VarietyTrend,
    pub dimensions: BTreeMap<String, String>,
    pub measured_at: i64,
}

/// The plain-value view of `VarietyEstimate`.
pub struct VarietyEstimateModel {
    pub metadata: ProtocolMetadataModel,
    pub estimate_id: Seq<char>,
    pub trend: VarietyTrend,
    pub dimensions: Map<String, String>,
    pub measured_at: i64,
}

impl View for VarietyEstimate {
    type V = VarietyEstimateModel;

    open spec fn view(&self) -> VarietyEstimateModel {
        VarietyEstimateModel {
            metadata: self.metadata@,
            estimate_id: self.estimate_id@,
            trend: self.trend,
            dimensions: self.dimensions@,
            measured_at: self.measured_at,
        }
    }
}

impl Duplicate for VarietyEstimate {
    fn duplicate(&self) -> (r: Self) {
        VarietyEstimate {
            metadata: self.metadata.duplicate(),
            estimate_id: self.estimate_id.clone(),
            trend: self.trend,
            dimensions: self.dimensions.clone(),
            measured_at: self.measured_at,
        }
    }
}

/// A variety observation: where it comes from, its estimate, its notes and when.
pub struct VarietyObservation {
    pub metadata: ProtocolMetadata,
    pub observation_id: String,
    pub source_unit: Option<String>,
    pub estimate: VarietyEstimate,
    pub notes: BTreeMap<String, String>,
    pub observed_at: i64,
}

/// The plain-value view of `VarietyObservation`.
pub struct VarietyObservationModel {
    pub metadata: ProtocolMetadataModel,
    pub observation_id: Seq<char>,
    pub source_unit: Option<Seq<char>>,
    pub estimate: VarietyEstimateModel,
    pub notes: Map<String, String>,
    pub observed_at: i64,
}

impl View for VarietyObservation {
    type V = VarietyObservationModel;

    open spec fn view(&self) -> VarietyObservationModel {
        VarietyObservationModel {
            metadata: self.metadata@,
            observation_id: self.observation_id@,
            source_unit: opt_text(self.source_unit),
            estimate: self.estimate@,
            notes: self.notes@,
            observed_at: self.observed_at,
        }
    }
}

impl Duplicate for VarietyObservation {
    fn duplicate(&self) -> (r: Self) {
        VarietyObservation {
            metadata: self.metadata.duplicate(),
            observation_id: self.observation_id.clone(),
            source_unit: copy_opt(&self.source_unit),
            estimate: self.estimate.duplicate(),
            notes: self.notes.clone(),
            observed_at: self.observed_at,
        }
    }
}

/// An intervention proposed to change effective variety; its expected effect is an
/// estimate of floating-point figures with no field here.
pub struct VarietyIntervention {
    pub metadata: ProtocolMetadata,
    pub intervention_id: String,
    pub kind: VarietyInterventionKind,
    pub target_units: Vec<String>,
    pub reason: String,
    pub requires_ack: bool,
    pub proposed_at: i64,
}

/// The plain-value view of `VarietyIntervention`.
pub struct VarietyInterventionModel {
    pub metadata: ProtocolMetadataModel,
    pub intervention_id: Seq<char>,
    pub kind: VarietyInterventionKind,
    pub target_units: Seq<Seq<char>>,
    pub reason: Seq<char>,
    pub requires_ack: bool,
    pub proposed_at: i64,
}

impl View for VarietyIntervention {
    type V = VarietyInterventionModel;

    open spec fn view(&self) -> VarietyInterventionModel {
        VarietyInterventionModel {
            metadata: self.metadata@,
            intervention_id: self.intervention_id@,
            kind: self.kind,
            target_units: texts(self.target_units@),
            reason: self.reason@,
            requires_ack: self.requires_ack,
            proposed_at: self.proposed_at,
        }
    }
}

impl Duplicate for VarietyIntervention {
    fn duplicate(&self) -> (r: Self) {
        VarietyIntervention {
            metadata: self.metadata.duplicate(),
            intervention_id: self.intervention_id.clone(),
            kind: self.kind.copy(),
            target_units: copy_texts(&self.target_units),
            reason: self.reason.clone(),
            requires_ack: self.requires_ack,
            proposed_at: self.proposed_at,
        }
    }
}

/// What came of an intervention at a unit; its measured effect is an estimate of
/// floating-point figures with no field here.
pub struct VarietyInterventionOutcome {
    pub metadata: ProtocolMetadata,
    pub intervention_id: String,
    pub target_unit: Option<String>,
    pub accepted: bool,
    pub reason: Option<String>,
    pub recorded_at: i64,
}

/// The plain-value view of `VarietyInterventionOutcome`.
pub struct VarietyInterventionOutcomeModel {
    pub metadata: ProtocolMetadataModel,
    pub intervention_id: Seq<char>,
    pub target_unit: Option<Seq<char>>,
    pub accepted: bool,
    pub reason: Option<Seq<char>>,
    pub recorded_at: i64,
}

impl View for VarietyInterventionOutcome {
    type V = VarietyInterventionOutcomeModel;

    open spec fn view(&self) -> VarietyInterventionOutcomeModel {
        VarietyInterventionOutcomeModel {
            metadata: self.metadata@,
            intervention_id: self.intervention_id@,
            target_unit: opt_text(self.target_unit),
            accepted: self.accepted,
            reason: opt_text(self.reason),
            recorded_at: self.recorded_at,
        }
    }
}

impl Duplicate for VarietyInterventionOutcome {
    fn duplicate(&self) -> (r: Self) {
        VarietyInterventionOutcome {
            metadata: self.metadata.duplicate(),
            intervention_id: self.intervention_id.clone(),
            target_unit: copy_opt(&self.target_unit),
            accepted: self.accepted,
            reason: copy_opt(&self.reason),
            recorded_at: self.recorded_at,
        }
    }
}

/// One variety cycle: the observation, the interventions planned for it, their outcomes
/// so far, and when it was evaluated.
pub struct VarietyCycle {
    pub metadata: ProtocolMetadata,
    pub observation: VarietyObservation,
    pub interventions: Vec<VarietyIntervention>,
    pub outcomes: Vec<VarietyInterventionOutcome>,
    pub evaluated_at: i64,
}

} // verus!

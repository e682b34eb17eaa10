//! Typed System 4 environmental intelligence records.
//!
//! Durations are milliseconds and instants are epoch milliseconds. Measured
//! quantities, confidences, scores and forecast points are floating-point figures
//! with no field here; the records keep their identities, metadata, links and texts.

use vstd::prelude::*;

use crate::protocol::system2::{copy_opt, opt_text};
use crate::protocol::system3::copy_texts;
use crate::dup::Duplicate;
use crate::text::{concat2, texts};
use crate::protocol::envelope::{fresh_metadata, ProtocolMetadata, ProtocolMetadataModel};
use crate::support::{fresh_uuid, is_uuid_v4_text};

verus! {

/// Data freshness status assigned by the System 4 runtime.
#[derive(Debug, Clone, Copy, PartialEq, Eq, Structural)]
pub enum FreshnessStatus {
    Fresh,
    Stale,
    Expired,
}

/// Registration metadata for an environmental source.
#[derive(Debug, PartialEq)]
pub struct EnvironmentSourceDescriptor {
    pub source_id: String,
    pub label: String,
    pub description: Option<String>,
    pub provenance: Vec<String>,
    pub stale_after: Option<u64>,
    pub tags: Vec<String>,
}

/// The plain-value view of `EnvironmentSourceDescriptor`.
pub struct EnvironmentSourceDescriptorModel {
    pub source_id: Seq<char>,
    pub label: Seq<char>,
    pub description: Option<Seq<char>>,
    pub provenance: Seq<Seq<char>>,
    pub stale_after: Option<u64>,
    pub tags: Seq<Seq<char>>,
}

impl View for EnvironmentSourceDescriptor {
    type V = EnvironmentSourceDescriptorModel;

    open spec fn view(&self) -> EnvironmentSourceDescriptorModel {
        EnvironmentSourceDescriptorModel {
            source_id: self.source_id@,
            label: self.label@,
            description: opt_text(self.description),
            provenance: texts(self.provenance@),
            stale_after: self.stale_after,
            tags: texts(self.tags@),
        }
    }
}

impl Duplicate for EnvironmentSourceDescriptor {
    fn duplicate(&self) -> (r: Self) {
        EnvironmentSourceDescriptor {
            source_id: self.source_id.clone(),
            label: self.label.clone(),
            description: copy_opt(&self.description),
            provenance: copy_texts(&self.provenance),
            stale_after: self.stale_after,
            tags: copy_texts(&self.tags),
        }
    }
}

impl EnvironmentSourceDescriptor {
    /// Creates a descriptor whose label defaults to its ID.
    pub fn new(source_id: String) -> (r: Self)
        ensures
            r.source_id == source_id,
            r.label@ == source_id@,
            r.description is None,
            r.provenance@.len() == 0,
            r.stale_after is None,
            r.tags@.len() == 0,
    {
        EnvironmentSourceDescriptor {
            label: source_id.clone(),
            source_id,
            description: None,
            provenance: Vec::new(),
            stale_after: None,
            tags: Vec::new(),
        }
    }

    /// Replaces the human-readable label.
    pub fn with_label(self, label: String) -> (r: Self)
        ensures
            r@ == (EnvironmentSourceDescriptorModel { label: label@, ..self@ }),
    {
        EnvironmentSourceDescriptor { label, ..self }
    }

    /// Sets the age, in milliseconds, after which observations become stale.
    pub fn with_stale_after(self, stale_after: u64) -> (r: Self)
        ensures
            r@ == (EnvironmentSourceDescriptorModel { stale_after: Some(stale_after), ..self@ }),
    {
        EnvironmentSourceDescriptor { stale_after: Some(stale_after), ..self }
    }

    /// Replaces the source provenance labels.
    pub fn with_provenance(self, provenance: Vec<String>) -> (r: Self)
        ensures
            r@ == (EnvironmentSourceDescriptorModel { provenance: texts(provenance@), ..self@ }),
    {
        EnvironmentSourceDescriptor { provenance, ..self }
    }
}

/// Runtime status for one registered environmental source.
#[derive(Debug, PartialEq)]
pub struct EnvironmentSourceStatus {
    pub descriptor: EnvironmentSourceDescriptor,
    pub observation_count: usize,
    pub restart_count: usize,
    pub last_observed_at: Option<i64>,
    pub last_error: Option<String>,
    pub freshness: FreshnessStatus,
}

/// The plain-value view of `EnvironmentSourceStatus`.
pub struct EnvironmentSourceStatusModel {
    pub descriptor: EnvironmentSourceDescriptorModel,
    pub observation_count: usize,
    pub restart_count: usize,
    pub last_observed_at: Option<i64>,
    pub last_error: Option<Seq<char>>,
    pub freshness: FreshnessStatus,
}

impl View for EnvironmentSourceStatus {
    type V = EnvironmentSourceStatusModel;

    open spec fn view(&self) -> EnvironmentSourceStatusModel {
        EnvironmentSourceStatusModel {
            descriptor: self.descriptor@,
            observation_count: self.observation_count,
            restart_count: self.restart_count,
            last_observed_at: self.last_observed_at,
            last_error: opt_text(self.last_error),
            freshness: self.freshness,
        }
    }
}

impl Duplicate for EnvironmentSourceStatus {
    fn duplicate(&self) -> (r: Self) {
        EnvironmentSourceStatus {
            descriptor: self.descriptor.duplicate(),
            observation_count: self.observation_count,
            restart_count: self.restart_count,
            last_observed_at: self.last_observed_at,
            last_error: copy_opt(&self.last_error),
            freshness: self.freshness,
        }
    }
}

/// The status of a source that has just been registered.
pub open spec fn initial_status(descriptor: EnvironmentSourceDescriptorModel) -> EnvironmentSourceStatusModel {
    EnvironmentSourceStatusModel {
        descriptor,
        observation_count: 0,
        restart_count: 0,
        last_observed_at: None,
        last_error: None,
        freshness: FreshnessStatus::Fresh,
    }
}

impl EnvironmentSourceStatus {
    /// Creates an initial source status: nothing observed, fresh.
    pub fn new(descriptor: EnvironmentSourceDescriptor) -> (r: Self)
        ensures
            r@ == initial_status(descriptor@),
    {
        EnvironmentSourceStatus {
            descriptor,
            observation_count: 0,
            restart_count: 0,
            last_observed_at: None,
            last_error: None,
            freshness: FreshnessStatus::Fresh,
        }
    }
}

/// Framework-owned signal category.
#[derive(Debug, PartialEq, Eq)]
pub enum SignalKind {
    Opportunity,
    Threat,
    WeakSignal,
    Anomaly,
    Custom(String),
}

impl SignalKind {
    /// A copy of the kind.
    pub fn copy(&self) -> (r: Self)
        ensures
            r == *self,
    {
        match self {
            SignalKind::Opportunity => SignalKind::Opportunity,
            SignalKind::Threat => SignalKind::Threat,
            SignalKind::WeakSignal => SignalKind::WeakSignal,
            SignalKind::Anomaly => SignalKind::Anomaly,
            SignalKind::Custom(s) => SignalKind::Custom(s.clone()),
        }
    }
}

/// A signal interpreted from environmental observations: identity, where it came from,
/// kind, when it was detected and expires, rationale and provenance. Its strength,
/// confidence and uncertainty are floating-point figures with no field here.
#[derive(Debug, PartialEq)]
pub struct InterpretedSignal {
    pub metadata: ProtocolMetadata,
    pub signal_id: String,
    pub source_id: Option<String>,
    pub observation_id: Option<String>,
    pub kind: SignalKind,
    pub detected_at: i64,
    pub expires_at: Option<i64>,
    pub rationale: Option<String>,
    pub provenance: Vec<String>,
}

/// The plain-value view of `InterpretedSignal`.
pub struct InterpretedSignalModel {
    pub metadata: ProtocolMetadataModel,
    pub signal_id: Seq<char>,
    pub source_id: Option<Seq<char>>,
    pub observation_id: Option<Seq<char>>,
    pub kind: SignalKind,
    pub detected_at: i64,
    pub expires_at: Option<i64>,
    pub rationale: Option<Seq<char>>,
    pub provenance: Seq<Seq<char>>,
}

impl View for InterpretedSignal {
    type V = InterpretedSignalModel;

    open spec fn view(&self) -> InterpretedSignalModel {
        InterpretedSignalModel {
            metadata: self.metadata@,
            signal_id: self.signal_id@,
            source_id: opt_text(self.source_id),
            observation_id: opt_text(self.observation_id),
            kind: self.kind,
            detected_at: self.detected_at,
            expires_at: self.expires_at,
            rationale: opt_text(self.rationale),
            provenance: texts(self.provenance@),
        }
    }
}

impl Duplicate for InterpretedSignal {
    fn duplicate(&self) -> (r: Self) {
        InterpretedSignal {
            metadata: self.metadata.duplicate(),
            signal_id: self.signal_id.clone(),
            source_id: copy_opt(&self.source_id),
            observation_id: copy_opt(&self.observation_id),
            kind: self.kind.copy(),
            detected_at: self.detected_at,
            expires_at: self.expires_at,
            rationale: copy_opt(&self.rationale),
            provenance: copy_texts(&self.provenance),
        }
    }
}

/// System 4's assessment of the signals: identity, when it was made, the signals it
/// draws on (by identity), summary and recommendations. Its risk, opportunity and
/// uncertainty scores are floating-point figures with no field here.
#[derive(Debug, PartialEq)]
pub struct IntelligenceAssessment {
    pub metadata: ProtocolMetadata,
    pub assessment_id: String,
    pub generated_at: i64,
    pub signal_ids: Vec<String>,
    pub summary: Option<String>,
    pub recommendations: Vec<String>,
}

/// The plain-value view of `IntelligenceAssessment`.
pub struct IntelligenceAssessmentModel {
    pub metadata: ProtocolMetadataModel,
    pub assessment_id: Seq<char>,
    pub generated_at: i64,
    pub signal_ids: Seq<Seq<char>>,
    pub summary: Option<Seq<char>>,
    pub recommendations: Seq<Seq<char>>,
}

impl View for IntelligenceAssessment {
    type V = IntelligenceAssessmentModel;

    open spec fn view(&self) -> IntelligenceAssessmentModel {
        IntelligenceAssessmentModel {
            metadata: self.metadata@,
            assessment_id: self.assessment_id@,
            generated_at: self.generated_at,
            signal_ids: texts(self.signal_ids@),
            summary: opt_text(self.summary),
            recommendations: texts(self.recommendations@),
        }
    }
}

impl Duplicate for IntelligenceAssessment {
    fn duplicate(&self) -> (r: Self) {
        IntelligenceAssessment {
            metadata: self.metadata.duplicate(),
            assessment_id: self.assessment_id.clone(),
            generated_at: self.generated_at,
            signal_ids: copy_texts(&self.signal_ids),
            summary: copy_opt(&self.summary),
            recommendations: copy_texts(&self.recommendations),
        }
    }
}

/// A forecast for an assessment: identity, the assessment, when it was made, its horizon
/// in milliseconds, model and provenance. Its confidence, uncertainty and points are
/// floating-point figures with no field here.
#[derive(Debug, PartialEq)]
pub struct Forecast {
    pub metadata: ProtocolMetadata,
    pub forecast_id: String,
    pub assessment_id: Option<String>,
    pub generated_at: i64,
    pub horizon_ms: u64,
    pub model: Option<String>,
    pub provenance: Vec<String>,
}

/// The plain-value view of `Forecast`.
pub struct ForecastModel {
    pub metadata: ProtocolMetadataModel,
    pub forecast_id: Seq<char>,
    pub assessment_id: Option<Seq<char>>,
    pub generated_at: i64,
    pub horizon_ms: u64,
    pub model: Option<Seq<char>>,
    pub provenance: Seq<Seq<char>>,
}

impl View for Forecast {
    type V = ForecastModel;

    open spec fn view(&self) -> ForecastModel {
        ForecastModel {
            metadata: self.metadata@,
            forecast_id: self.forecast_id@,
            assessment_id: opt_text(self.assessment_id),
            generated_at: self.generated_at,
            horizon_ms: self.horizon_ms,
            model: opt_text(self.model),
            provenance: texts(self.provenance@),
        }
    }
}

impl Duplicate for Forecast {
    fn duplicate(&self) -> (r: Self) {
        Forecast {
            metadata: self.metadata.duplicate(),
            forecast_id: self.forecast_id.clone(),
            assessment_id: copy_opt(&self.assessment_id),
            generated_at: self.generated_at,
            horizon_ms: self.horizon_ms,
            model: copy_opt(&self.model),
            provenance: copy_texts(&self.provenance),
        }
    }
}

/// An environmental observation as a source reports it: identity, source, when it was
/// observed and received, provenance, freshness, summary and tags. Its confidence and
/// measurements are floating-point figures with no field here.
#[derive(Debug, PartialEq)]
pub struct EnvironmentalObservation {
    pub metadata: ProtocolMetadata,
    pub observation_id: String,
    pub source_id: String,
    pub observed_at: i64,
    pub received_at: i64,
    pub provenance: Vec<String>,
    pub freshness: FreshnessStatus,
    pub summary: Option<String>,
    pub tags: Vec<String>,
}

/// The plain-value view of `EnvironmentalObservation`.
pub struct EnvironmentalObservationModel {
    pub metadata: ProtocolMetadataModel,
    pub observation_id: Seq<char>,
    pub source_id: Seq<char>,
    pub observed_at: i64,
    pub received_at: i64,
    pub provenance: Seq<Seq<char>>,
    pub freshness: FreshnessStatus,
    pub summary: Option<Seq<char>>,
    pub tags: Seq<Seq<char>>,
}

impl View for EnvironmentalObservation {
    type V = EnvironmentalObservationModel;

    open spec fn view(&self) -> EnvironmentalObservationModel {
        EnvironmentalObservationModel {
            metadata: self.metadata@,
            observation_id: self.observation_id@,
            source_id: self.source_id@,
            observed_at: self.observed_at,
            received_at: self.received_at,
            provenance: texts(self.provenance@),
            freshness: self.freshness,
            summary: opt_text(self.summary),
            tags: texts(self.tags@),
        }
    }
}

impl Duplicate for EnvironmentalObservation {
    fn duplicate(&self) -> (r: Self) {
        EnvironmentalObservation {
            metadata: self.metadata.duplicate(),
            observation_id: self.observation_id.clone(),
            source_id: self.source_id.clone(),
            observed_at: self.observed_at,
            received_at: self.received_at,
            provenance: copy_texts(&self.provenance),
            freshness: self.freshness,
            summary: copy_opt(&self.summary),
            tags: copy_texts(&self.tags),
        }
    }
}

impl EnvironmentalObservation {
    /// Creates a fresh observation for a source with a generated `observation-` identity,
    /// observed and received at `now`, with no provenance, summary or tags.
    pub fn new(source_id: String, now: i64) -> (r: Self)
        ensures
            fresh_metadata(r.metadata@),
            exists|id: Seq<char>| is_uuid_v4_text(id) && r.observation_id@ == "observation-"@ + id,
            r.source_id == source_id,
            r.observed_at == now,
            r.received_at == now,
            r.provenance@.len() == 0,
            r.freshness == FreshnessStatus::Fresh,
            r.summary is None,
            r.tags@.len() == 0,
    {
        let id = fresh_uuid();
        let observation_id = concat2("observation-", id.as_str());
        assert(observation_id@ == "observation-"@ + id@);
        EnvironmentalObservation {
            metadata: ProtocolMetadata::new(),
            observation_id,
            source_id,
            observed_at: now,
            received_at: now,
            provenance: Vec::new(),
            freshness: FreshnessStatus::Fresh,
            summary: None,
            tags: Vec::new(),
        }
    }

    /// Sets a human-readable summary.
    pub fn with_summary(self, summary: String) -> (r: Self)
        ensures
            r@ == (EnvironmentalObservationModel { summary: Some(summary@), ..self@ }),
    {
        EnvironmentalObservation { summary: Some(summary), ..self }
    }
}

} // verus!

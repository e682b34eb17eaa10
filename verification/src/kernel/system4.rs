//! System 4 bookkeeping: source registration, observation collection and freshness,
//! the intelligence cycle and its history, and the feasibility answer.
//!
//! Durations are milliseconds and instants are epoch milliseconds.

use vstd::prelude::*;

use crate::dup::{dup_vec, extend_dup, view_seq, Duplicate};
use crate::error::FrameworkError;
use crate::protocol::address::{RecursionPath, RuntimeId, SubsystemRole, VsmAddress, VsmAddressModel, opt_address};
use crate::protocol::system2::{copy_opt, opt_text};
use crate::protocol::system3::{OperationalSummaryModel, System3Snapshot};
use crate::protocol::system4::{
    initial_status, EnvironmentSourceDescriptor, EnvironmentSourceStatus, EnvironmentSourceStatusModel,
    EnvironmentalObservation, EnvironmentalObservationModel, Forecast, ForecastModel, FreshnessStatus,
    IntelligenceAssessment, IntelligenceAssessmentModel, InterpretedSignal, InterpretedSignalModel,
};
use crate::text::{concat2, concat3, decimal, texts, u64_text};

use crate::protocol::envelope::{set_source, with_source, ProtocolMetadata, ProtocolMetadataModel};
verus! {

/// Freshness of an observation made at `observed_at`, seen at `now`: without a staleness
/// limit, or when observed in the future, it is fresh; up to the limit it is fresh, up to
/// twice the limit stale, and expired after that.
pub open spec fn freshness(observed_at: i64, now: i64, stale_after: Option<u64>) -> FreshnessStatus {
    match stale_after {
        None => FreshnessStatus::Fresh,
        Some(limit) => {
            let age = now - observed_at;
            if age < 0 || age <= limit {
                FreshnessStatus::Fresh
            } else if age <= 2 * limit {
                FreshnessStatus::Stale
            } else {
                FreshnessStatus::Expired
            }
        },
    }
}

/// How far a freshness status has decayed: fresh, then stale, then expired.
pub open spec fn decay_rank(f: FreshnessStatus) -> int {
    match f {
        FreshnessStatus::Fresh => 0,
        FreshnessStatus::Stale => 1,
        FreshnessStatus::Expired => 2,
    }
}

/// An observation never becomes fresher as time passes: seen later, its freshness is
/// the same or further decayed.
pub proof fn lemma_freshness_decays(observed_at: i64, earlier: i64, later: i64, stale_after: Option<u64>)
    requires
        earlier <= later,
    ensures
        decay_rank(freshness(observed_at, earlier, stale_after)) <= decay_rank(
            freshness(observed_at, later, stale_after),
        ),
{
}

/// Computes the freshness of one observation.
pub fn observation_freshness(observed_at: i64, now: i64, stale_after: Option<u64>) -> (r: FreshnessStatus)
    ensures
        r == freshness(observed_at, now, stale_after),
{
    match stale_after {
        None => FreshnessStatus::Fresh,
        Some(limit) => {
            let age = now as i128 - observed_at as i128;
            if age < 0 || age <= limit as i128 {
                FreshnessStatus::Fresh
            } else if age <= 2 * (limit as i128) {
                FreshnessStatus::Stale
            } else {
                FreshnessStatus::Expired
            }
        },
    }
}

/// Freshness of a source: that of its latest observation, fresh if it has none.
pub open spec fn source_freshness(status: EnvironmentSourceStatusModel, now: i64) -> FreshnessStatus {
    match status.last_observed_at {
        Some(t) => freshness(t, now, status.descriptor.stale_after),
        None => FreshnessStatus::Fresh,
    }
}

/// Recomputes a source's freshness from its latest observation.
pub fn refresh_source_freshness(status: &mut EnvironmentSourceStatus, now: i64)
    ensures
        final(status)@ == (EnvironmentSourceStatusModel {
            freshness: source_freshness(old(status)@, now),
            ..old(status)@
        }),
{
    let f = match status.last_observed_at {
        Some(t) => observation_freshness(t, now, status.descriptor.stale_after),
        None => FreshnessStatus::Fresh,
    };
    status.freshness = f;
}

/// The largest of the instants, if any.
pub open spec fn latest(times: Seq<i64>) -> Option<i64>
    decreases times.len(),
{
    if times.len() == 0 {
        None
    } else {
        match latest(times.drop_last()) {
            Some(t) => if t >= times.last() { Some(t) } else { Some(times.last()) },
            None => Some(times.last()),
        }
    }
}

fn latest_time(times: &Vec<i64>) -> (r: Option<i64>)
    ensures
        r == latest(times@),
{
    let mut best: Option<i64> = None;
    let n = times.len();
    let mut i: usize = 0;
    while i < n
        invariant
            n == times@.len(),
            i <= n,
            best == latest(times@.take(i as int)),
        decreases n - i,
    {
        assert(times@.take(i + 1).drop_last() =~= times@.take(i as int));
        let t = times[i];
        best = match best {
            Some(b) => if b >= t { Some(b) } else { Some(t) },
            None => Some(t),
        };
        i = i + 1;
    }
    assert(times@.take(n as int) =~= times@);
    best
}

/// A source's status after a successful observation that returned observations made at
/// `observed_times`.
pub open spec fn after_observation(status: EnvironmentSourceStatusModel, observed_times: Seq<i64>, now: i64) -> EnvironmentSourceStatusModel {
    let last = match latest(observed_times) {
        Some(t) => Some(t),
        None => Some(now),
    };
    let s = EnvironmentSourceStatusModel {
        observation_count: (status.observation_count + observed_times.len()) as usize,
        last_observed_at: last,
        last_error: None,
        ..status
    };
    EnvironmentSourceStatusModel { freshness: source_freshness(s, now), ..s }
}

/// Records a successful observation: counts the observations, remembers the latest
/// observation time (or `now` when nothing was returned), clears the error and
/// recomputes freshness.
pub fn record_observations(status: &mut EnvironmentSourceStatus, observed_times: &Vec<i64>, now: i64)
    requires
        old(status).observation_count + observed_times@.len() <= usize::MAX,
    ensures
        final(status)@ == after_observation(old(status)@, observed_times@, now),
{
    status.observation_count = status.observation_count + observed_times.len();
    status.last_observed_at = match latest_time(observed_times) {
        Some(t) => Some(t),
        None => Some(now),
    };
    status.last_error = None;
    refresh_source_freshness(status, now);
}

/// The error recorded after a failed observation and the attempt to restart the source.
pub open spec fn failure_text(error: Seq<char>, restart_error: Option<String>) -> Seq<char> {
    match restart_error {
        None => error,
        Some(e) => error + "; restart failed: "@ + e@,
    }
}

/// Records a failed observation: the source is stale, its restart is counted and the
/// error (with the restart's failure, if the restart failed) is remembered.
pub fn record_observation_failure(status: &mut EnvironmentSourceStatus, error: &String, restart_error: Option<String>)
    requires
        old(status).restart_count < usize::MAX,
    ensures
        final(status)@ == (EnvironmentSourceStatusModel {
            restart_count: (old(status).restart_count + 1) as usize,
            last_error: Some(failure_text(error@, restart_error)),
            freshness: FreshnessStatus::Stale,
            ..old(status)@
        }),
{
    let text = match restart_error {
        None => error.clone(),
        Some(e) => concat3(error.as_str(), "; restart failed: ", e.as_str()),
    };
    status.last_error = Some(text);
    status.freshness = FreshnessStatus::Stale;
    status.restart_count = status.restart_count + 1;
}

/// No two statuses are for the same source.
pub open spec fn unique_sources(sources: Seq<EnvironmentSourceStatusModel>) -> bool {
    forall|i: int, j: int|
        0 <= i < sources.len() && 0 <= j < sources.len() && i != j ==> sources[i].descriptor.source_id
            != sources[j].descriptor.source_id
}

/// Some status is for this source.
pub open spec fn has_source(sources: Seq<EnvironmentSourceStatusModel>, source_id: Seq<char>) -> bool {
    exists|i: int| 0 <= i < sources.len() && sources[i].descriptor.source_id == source_id
}

/// The position of the source's status, when present.
pub open spec fn source_index(sources: Seq<EnvironmentSourceStatusModel>, source_id: Seq<char>) -> int {
    choose|i: int| 0 <= i < sources.len() && sources[i].descriptor.source_id == source_id
}

/// The statuses that are not fresh, in order.
pub open spec fn stale(sources: Seq<EnvironmentSourceStatusModel>) -> Seq<EnvironmentSourceStatusModel>
    decreases sources.len(),
{
    if sources.len() == 0 {
        Seq::empty()
    } else {
        let prev = stale(sources.drop_last());
        if sources.last().freshness != FreshnessStatus::Fresh {
            prev.push(sources.last())
        } else {
            prev
        }
    }
}

/// The environmental sources registered with System 4, in registration order.
pub struct SourceRegistry {
    sources: Vec<EnvironmentSourceStatus>,
}

impl SourceRegistry {
    /// Source statuses in registration order.
    pub closed spec fn sources(&self) -> Seq<EnvironmentSourceStatusModel> {
        view_seq(self.sources@)
    }

    /// One status per source.
    pub open spec fn wf(&self) -> bool {
        unique_sources(self.sources())
    }

    /// An empty registry.
    pub fn new() -> (r: Self)
        ensures
            r.wf(),
            r.sources().len() == 0,
    {
        let r = SourceRegistry { sources: Vec::new() };
        assert(r.sources() =~= Seq::<EnvironmentSourceStatusModel>::empty());
        r
    }

    fn find(&self, source_id: &String) -> (r: Option<usize>)
        requires
            self.wf(),
        ensures
            match r {
                Some(i) => i < self.sources().len() && self.sources()[i as int].descriptor.source_id == source_id@
                    && source_index(self.sources(), source_id@) == i,
                None => !has_source(self.sources(), source_id@),
            },
    {
        let n = self.sources.len();
        let mut i: usize = 0;
        while i < n
            invariant
                n == self.sources@.len(),
                i <= n,
                self.wf(),
                forall|j: int| 0 <= j < i ==> self.sources()[j].descriptor.source_id != source_id@,
            decreases n - i,
        {
            if self.sources[i].descriptor.source_id == *source_id {
                proof {
                    assert(self.sources()[i as int] == self.sources@[i as int]@);
                    assert(has_source(self.sources(), source_id@));
                    let c = source_index(self.sources(), source_id@);
                    assert(c == i);
                }
                return Some(i);
            }
            assert(self.sources()[i as int] == self.sources@[i as int]@);
            i = i + 1;
        }
        None
    }

    /// Registers a source with an initial status; a source ID already registered is refused.
    pub fn register_source(&mut self, descriptor: EnvironmentSourceDescriptor) -> (r: Result<
        EnvironmentSourceStatus,
        FrameworkError,
    >)
        requires
            old(self).wf(),
        ensures
            final(self).wf(),
            has_source(old(self).sources(), descriptor.source_id@) ==> (r matches Err(
                FrameworkError::InvalidProtocol { reason },
            ) && reason@ == "System 4 source already registered: "@ + descriptor.source_id@ && final(self).sources()
                == old(self).sources()),
            !has_source(old(self).sources(), descriptor.source_id@) ==> (r matches Ok(s) && s@ == initial_status(
                descriptor@,
            ) && final(self).sources() == old(self).sources().push(initial_status(descriptor@))),
    {
        if self.find(&descriptor.source_id).is_some() {
            return Err(
                FrameworkError::InvalidProtocol {
                    reason: concat2("System 4 source already registered: ", descriptor.source_id.as_str()),
                },
            );
        }
        let status = EnvironmentSourceStatus::new(descriptor);
        let ghost before = self.sources@;
        self.sources.push(status.duplicate());
        assert(self.sources() =~= view_seq(before).push(status@));
        Ok(status)
    }

    /// Takes the status a source reported with its observation batch.
    pub fn update_status(&mut self, source_id: &String, status: EnvironmentSourceStatus)
        requires
            old(self).wf(),
            status.descriptor.source_id@ == source_id@,
        ensures
            final(self).wf(),
            has_source(old(self).sources(), source_id@) ==> final(self).sources() == old(self).sources().update(
                source_index(old(self).sources(), source_id@),
                status@,
            ),
            !has_source(old(self).sources(), source_id@) ==> final(self).sources() == old(self).sources(),
    {
        match self.find(source_id) {
            None => {},
            Some(i) => {
                let ghost before = self.sources@;
                let ghost sm = status@;
                self.sources.set(i, status);
                assert(self.sources() =~= view_seq(before).update(i as int, sm));
            },
        }
    }

    /// Marks a source that could not be reached: it is stale and remembers the error.
    pub fn mark_unreachable(&mut self, source_id: &String, error: String)
        requires
            old(self).wf(),
        ensures
            final(self).wf(),
            has_source(old(self).sources(), source_id@) ==> ({
                let k = source_index(old(self).sources(), source_id@);
                final(self).sources() == old(self).sources().update(
                    k,
                    EnvironmentSourceStatusModel {
                        last_error: Some(error@),
                        freshness: FreshnessStatus::Stale,
                        ..old(self).sources()[k]
                    },
                )
            }),
            !has_source(old(self).sources(), source_id@) ==> final(self).sources() == old(self).sources(),
    {
        match self.find(source_id) {
            None => {},
            Some(i) => {
                let ghost before = self.sources@;
                let mut s = self.sources[i].duplicate();
                s.last_error = Some(error);
                s.freshness = FreshnessStatus::Stale;
                let ghost sm = s@;
                self.sources.set(i, s);
                assert(self.sources() =~= view_seq(before).update(i as int, sm));
            },
        }
    }

    /// All source statuses in registration order.
    pub fn statuses(&self) -> (r: Vec<EnvironmentSourceStatus>)
        ensures
            view_seq(r@) == self.sources(),
    {
        dup_vec(&self.sources)
    }

    /// The statuses of sources that are not fresh, in registration order.
    pub fn stale_sources(&self) -> (r: Vec<EnvironmentSourceStatus>)
        ensures
            view_seq(r@) == stale(self.sources()),
    {
        let mut out: Vec<EnvironmentSourceStatus> = Vec::new();
        let n = self.sources.len();
        let mut i: usize = 0;
        while i < n
            invariant
                n == self.sources@.len(),
                i <= n,
                view_seq(out@) == stale(self.sources().take(i as int)),
            decreases n - i,
        {
            assert(self.sources().take(i + 1).drop_last() =~= self.sources().take(i as int));
            assert(self.sources().take(i + 1).last() == self.sources@[i as int]@);
            if self.sources[i].freshness != FreshnessStatus::Fresh {
                let ghost before = out@;
                let s = self.sources[i].duplicate();
                out.push(s);
                assert(view_seq(out@) =~= view_seq(before).push(s@));
            }
            i = i + 1;
        }
        assert(self.sources().take(n as int) =~= self.sources());
        out
    }
}

/// Provenance a record keeps: its own when it has any, else the assessment it came
/// from followed by the linked record, if any, as `kind:id`.
pub open spec fn filled_provenance(
    existing: Seq<Seq<char>>,
    assessment_id: Seq<char>,
    link_kind: Seq<char>,
    link_id: Option<Seq<char>>,
) -> Seq<Seq<char>> {
    if existing.len() > 0 {
        existing
    } else {
        let first = seq!["assessment:"@ + assessment_id];
        match link_id {
            Some(id) => first.push(link_kind + ":"@ + id),
            None => first,
        }
    }
}

/// Fills in missing provenance for a scenario (linked to its forecast) or a proposal
/// (linked to its scenario).
pub fn fill_provenance(existing: Vec<String>, assessment_id: &String, link_kind: &str, link_id: &Option<String>) -> (r:
    Vec<String>)
    ensures
        texts(r@) == filled_provenance(texts(existing@), assessment_id@, link_kind@, opt_text(*link_id)),
{
    if existing.len() > 0 {
        return existing;
    }
    let mut out: Vec<String> = Vec::new();
    out.push(concat2("assessment:", assessment_id.as_str()));
    match link_id {
        Some(id) => {
            out.push(concat3(link_kind, ":", id.as_str()));
        },
        None => {},
    }
    assert(texts(existing@) =~= Seq::<Seq<char>>::empty());
    proof {
        if link_id is Some {
            assert(texts(out@) =~= filled_provenance(texts(existing@), assessment_id@, link_kind@, opt_text(*link_id)));
        } else {
            assert(texts(out@) =~= filled_provenance(texts(existing@), assessment_id@, link_kind@, opt_text(*link_id)));
        }
    }
    out
}

/// The feasibility summary System 4 attaches to proposals: what the System 3 snapshot
/// shows, or why it could not be read.
pub open spec fn feasibility_summary_text(
    allocations: nat,
    directives: nat,
    audits: nat,
    observed: bool,
    unavailable_reason: Option<String>,
) -> Seq<char> {
    if observed {
        "System 3 snapshot observed: "@ + decimal(allocations as u64) + " allocations, "@ + decimal(directives as u64)
            + " directives, "@ + decimal(audits as u64) + " audit responses"@
    } else {
        match unavailable_reason {
            Some(r) => r@,
            None => "System 3 snapshot unavailable"@,
        }
    }
}

/// Summarizes operational feasibility from System 3's snapshot, when it could be read.
pub fn feasibility_summary(snapshot: &Option<System3Snapshot>, unavailable_reason: Option<String>) -> (r: String)
    ensures
        r@ == match snapshot {
            Some(s) => feasibility_summary_text(
                s.allocations@.len(),
                s.directives@.len(),
                s.audit_responses@.len(),
                true,
                unavailable_reason,
            ),
            None => feasibility_summary_text(0, 0, 0, false, unavailable_reason),
        },
{
    match snapshot {
        Some(s) => {
            let mut out = "System 3 snapshot observed: ".to_owned();
            let a = u64_text(s.allocations.len() as u64);
            out.append(a.as_str());
            out.append(" allocations, ");
            let d = u64_text(s.directives.len() as u64);
            out.append(d.as_str());
            out.append(" directives, ");
            let au = u64_text(s.audit_responses.len() as u64);
            out.append(au.as_str());
            out.append(" audit responses");
            out
        },
        None => match unavailable_reason {
            Some(r) => r,
            None => "System 3 snapshot unavailable".to_owned(),
        },
    }
}

/// One feasibility constraint per System 3 summary.
pub open spec fn summary_constraint(s: OperationalSummaryModel) -> Seq<char> {
    decimal(s.affected_units.len() as u64) + " affected units, "@ + decimal(s.failed_acknowledgement_count as u64)
        + " failed acknowledgements"@
}

/// The constraints drawn from a sequence of summaries, one per summary.
pub open spec fn constraints_of(summaries: Seq<OperationalSummaryModel>) -> Seq<Seq<char>> {
    summaries.map_values(|s: OperationalSummaryModel| summary_constraint(s))
}

/// The feasibility constraints drawn from System 3's operational summaries.
pub fn feasibility_constraints(snapshot: &System3Snapshot) -> (r: Vec<String>)
    ensures
        texts(r@) == constraints_of(view_seq(snapshot.summaries@)),
{
    let mut out: Vec<String> = Vec::new();
    let n = snapshot.summaries.len();
    let mut i: usize = 0;
    while i < n
        invariant
            n == snapshot.summaries@.len(),
            i <= n,
            texts(out@) == constraints_of(view_seq(snapshot.summaries@)).take(i as int),
        decreases n - i,
    {
        let s = &snapshot.summaries[i];
        let mut line = u64_text(s.affected_units.len() as u64);
        line.append(" affected units, ");
        let f = u64_text(s.failed_acknowledgement_count as u64);
        line.append(f.as_str());
        line.append(" failed acknowledgements");
        let ghost before = out@;
        assert(line@ == summary_constraint(snapshot.summaries@[i as int]@));
        out.push(line);
        assert(view_seq(snapshot.summaries@)[i as int] == snapshot.summaries@[i as int]@);
        assert(constraints_of(view_seq(snapshot.summaries@))[i as int] == line@);
        assert(texts(out@) =~= texts(before).push(line@));
        assert(texts(out@) =~= constraints_of(view_seq(snapshot.summaries@)).take(i + 1));
        i = i + 1;
    }
    assert(constraints_of(view_seq(snapshot.summaries@)).take(n as int) =~= constraints_of(
        view_seq(snapshot.summaries@),
    ));
    out
}

/// System 3's answer on the operational feasibility of System 4's plans: when it was
/// asked, who assessed it, what the snapshot shows and its constraints. Its confidence
/// is a floating-point figure with no field here: it is full when the snapshot was read
/// and nil otherwise.
pub struct FeasibilityRecord {
    pub requested_at: i64,
    pub assessed_by: Option<VsmAddress>,
    pub summary: String,
    pub constraints: Vec<String>,
}

/// Builds the feasibility answer from System 3's snapshot, when it could be read: System 3
/// of this runtime assessed it, its summary is `feasibility_summary`'s, and its
/// constraints are those of the snapshot's summaries, none when there is no snapshot.
pub fn feasibility_from_system3_snapshot(
    snapshot: &Option<System3Snapshot>,
    unavailable_reason: Option<String>,
    runtime_id: &RuntimeId,
    recursion_path: &RecursionPath,
    now: i64,
) -> (r: FeasibilityRecord)
    ensures
        r.requested_at == now,
        r.assessed_by matches Some(a) && a@ == (VsmAddressModel {
            runtime_id: runtime_id@,
            recursion_path: recursion_path@,
            role: SubsystemRole::System3,
            entity: None,
        }),
        r.summary@ == match snapshot {
            Some(s) => feasibility_summary_text(
                s.allocations@.len(),
                s.directives@.len(),
                s.audit_responses@.len(),
                true,
                unavailable_reason,
            ),
            None => feasibility_summary_text(0, 0, 0, false, unavailable_reason),
        },
        texts(r.constraints@) == match snapshot {
            Some(s) => constraints_of(view_seq(s.summaries@)),
            None => Seq::<Seq<char>>::empty(),
        },
{
    let assessed_by = Some(VsmAddress::new(runtime_id.clone(), recursion_path.clone(), SubsystemRole::System3));
    let summary = feasibility_summary(snapshot, unavailable_reason);
    let constraints = match snapshot {
        Some(s) => feasibility_constraints(s),
        None => {
            let v: Vec<String> = Vec::new();
            assert(texts(v@) =~= Seq::<Seq<char>>::empty());
            v
        },
    };
    FeasibilityRecord { requested_at: now, assessed_by, summary, constraints }
}

/// The name of a System 4 actor: `typed.<runtime>.system4.<role>`.
pub fn system4_actor_name(runtime_id: &RuntimeId, role: &str) -> (r: String)
    ensures
        r@ == "typed."@ + runtime_id@ + ".system4."@ + role@,
{
    let mut out = concat3("typed.", runtime_id.as_str(), ".system4.");
    out.append(role);
    out
}

/// The name of a source actor: `typed.<runtime>.system4.source.<source>`.
pub fn system4_source_actor_name(runtime_id: &RuntimeId, source_id: &str) -> (r: String)
    ensures
        r@ == "typed."@ + runtime_id@ + ".system4.source."@ + source_id@,
{
    let mut out = concat3("typed.", runtime_id.as_str(), ".system4.source.");
    out.append(source_id);
    out
}

/// A scenario as the intelligence cycle routes it: its identity, the forecast it
/// builds on and its provenance. The forecaster's figures stay with the actor layer.
pub struct ScenarioRouting {
    pub metadata: ProtocolMetadata,
    pub scenario_id: String,
    pub forecast_id: Option<String>,
    pub provenance: Vec<String>,
}

/// The plain-value view of `ScenarioRouting`.
pub struct ScenarioRoutingModel {
    pub metadata: ProtocolMetadataModel,
    pub scenario_id: Seq<char>,
    pub forecast_id: Option<Seq<char>>,
    pub provenance: Seq<Seq<char>>,
}

impl View for ScenarioRouting {
    type V = ScenarioRoutingModel;

    open spec fn view(&self) -> ScenarioRoutingModel {
        ScenarioRoutingModel {
            metadata: self.metadata@,
            scenario_id: self.scenario_id@,
            forecast_id: opt_text(self.forecast_id),
            provenance: texts(self.provenance@),
        }
    }
}

impl Duplicate for ScenarioRouting {
    fn duplicate(&self) -> (r: Self) {
        ScenarioRouting {
            metadata: self.metadata.duplicate(),
            scenario_id: self.scenario_id.clone(),
            forecast_id: copy_opt(&self.forecast_id),
            provenance: crate::protocol::system3::copy_texts(&self.provenance),
        }
    }
}

/// An adaptation proposal as the intelligence cycle routes it: its identity, the
/// scenario it answers, its title, when it was made, where it goes and its provenance.
/// Its benefit, urgency and uncertainty are floating-point figures with no field here.
pub struct ProposalRouting {
    pub metadata: ProtocolMetadata,
    pub proposal_id: String,
    pub scenario_id: Option<String>,
    pub title: String,
    pub generated_at: i64,
    pub destination: Option<VsmAddress>,
    pub provenance: Vec<String>,
}

/// The plain-value view of `ProposalRouting`.
pub struct ProposalRoutingModel {
    pub metadata: ProtocolMetadataModel,
    pub proposal_id: Seq<char>,
    pub scenario_id: Option<Seq<char>>,
    pub title: Seq<char>,
    pub generated_at: i64,
    pub destination: Option<VsmAddressModel>,
    pub provenance: Seq<Seq<char>>,
}

impl View for ProposalRouting {
    type V = ProposalRoutingModel;

    open spec fn view(&self) -> ProposalRoutingModel {
        ProposalRoutingModel {
            metadata: self.metadata@,
            proposal_id: self.proposal_id@,
            scenario_id: opt_text(self.scenario_id),
            title: self.title@,
            generated_at: self.generated_at,
            destination: opt_address(self.destination),
            provenance: texts(self.provenance@),
        }
    }
}

impl Duplicate for ProposalRouting {
    fn duplicate(&self) -> (r: Self) {
        ProposalRouting {
            metadata: self.metadata.duplicate(),
            proposal_id: self.proposal_id.clone(),
            scenario_id: copy_opt(&self.scenario_id),
            title: self.title.clone(),
            generated_at: self.generated_at,
            destination: crate::protocol::envelope::copy_address(&self.destination),
            provenance: crate::protocol::system3::copy_texts(&self.provenance),
        }
    }
}

/// A scenario as the cycle records it: System 4 of this runtime named as its source, and provenance filled from the assessment and the
/// forecast when the forecaster gave none.
pub open spec fn completed_scenario(
    s: ScenarioRoutingModel,
    assessment_id: Seq<char>,
    runtime_id: Seq<char>,
    recursion_path: Seq<Seq<char>>,
) -> ScenarioRoutingModel {
    ScenarioRoutingModel {
        metadata: with_source(s.metadata, runtime_id, recursion_path, SubsystemRole::System4),
        provenance: filled_provenance(s.provenance, assessment_id, "forecast"@, s.forecast_id),
        ..s
    }
}

/// System 5 of the runtime at its recursion path: where proposals go by default.
pub open spec fn system5_home(runtime_id: Seq<char>, recursion_path: Seq<Seq<char>>) -> VsmAddressModel {
    VsmAddressModel { runtime_id, recursion_path, role: SubsystemRole::System5, entity: None }
}

/// A proposal as the cycle records it: System 4 of this runtime named as its source,
/// addressed to System 5 of this runtime when it
/// names no destination, and provenance filled from the assessment and the scenario
/// when the forecaster gave none.
pub open spec fn completed_proposal(
    p: ProposalRoutingModel,
    assessment_id: Seq<char>,
    runtime_id: Seq<char>,
    recursion_path: Seq<Seq<char>>,
) -> ProposalRoutingModel {
    ProposalRoutingModel {
        metadata: with_source(p.metadata, runtime_id, recursion_path, SubsystemRole::System4),
        destination: match p.destination {
            Some(d) => Some(d),
            None => Some(system5_home(runtime_id, recursion_path)),
        },
        provenance: filled_provenance(p.provenance, assessment_id, "scenario"@, p.scenario_id),
        ..p
    }
}

/// Completes a scenario returned by the forecaster.
pub fn complete_scenario(
    s: ScenarioRouting,
    assessment_id: &String,
    runtime_id: &RuntimeId,
    recursion_path: &RecursionPath,
) -> (r: ScenarioRouting)
    ensures
        r@ == completed_scenario(s@, assessment_id@, runtime_id@, recursion_path@),
{
    let mut metadata = s.metadata;
    set_source(&mut metadata, runtime_id, recursion_path, SubsystemRole::System4);
    let provenance = fill_provenance(s.provenance, assessment_id, "forecast", &s.forecast_id);
    ScenarioRouting { metadata, scenario_id: s.scenario_id, forecast_id: s.forecast_id, provenance }
}

/// Completes a proposal returned by the forecaster.
pub fn complete_proposal(
    p: ProposalRouting,
    assessment_id: &String,
    runtime_id: &RuntimeId,
    recursion_path: &RecursionPath,
) -> (r: ProposalRouting)
    ensures
        r@ == completed_proposal(p@, assessment_id@, runtime_id@, recursion_path@),
{
    let destination = match p.destination {
        Some(d) => Some(d),
        None => Some(VsmAddress::new(runtime_id.clone(), recursion_path.clone(), SubsystemRole::System5)),
    };
    let mut metadata = p.metadata;
    set_source(&mut metadata, runtime_id, recursion_path, SubsystemRole::System4);
    let provenance = fill_provenance(p.provenance, assessment_id, "scenario", &p.scenario_id);
    ProposalRouting {
        metadata,
        proposal_id: p.proposal_id,
        scenario_id: p.scenario_id,
        title: p.title,
        generated_at: p.generated_at,
        destination,
        provenance,
    }
}

/// What a registered source answered when asked to observe: its reported status and the
/// observations it made, or the error that kept it from answering.
pub enum SourceAnswer {
    Answered { status: EnvironmentSourceStatus, observations: Vec<EnvironmentalObservation> },
    Unreachable { error: String },
}

/// The plain-value view of `SourceAnswer`.
pub enum SourceAnswerModel {
    Answered { status: EnvironmentSourceStatusModel, observations: Seq<EnvironmentalObservationModel> },
    Unreachable { error: Seq<char> },
}

impl View for SourceAnswer {
    type V = SourceAnswerModel;

    open spec fn view(&self) -> SourceAnswerModel {
        match self {
            SourceAnswer::Answered { status, observations } => SourceAnswerModel::Answered {
                status: status@,
                observations: view_seq(observations@),
            },
            SourceAnswer::Unreachable { error } => SourceAnswerModel::Unreachable { error: error@ },
        }
    }
}

/// The observations an answer brings: those of a source that answered, none otherwise.
pub open spec fn answer_observations(a: SourceAnswerModel) -> Seq<EnvironmentalObservationModel> {
    match a {
        SourceAnswerModel::Answered { observations, .. } => observations,
        SourceAnswerModel::Unreachable { .. } => Seq::empty(),
    }
}

/// The observations of the sources that answered, concatenated in order.
pub open spec fn answered_observations(answers: Seq<SourceAnswerModel>) -> Seq<EnvironmentalObservationModel>
    decreases answers.len(),
{
    if answers.len() == 0 {
        Seq::empty()
    } else {
        answered_observations(answers.drop_last()) + answer_observations(answers.last())
    }
}

/// A source's status after its answer: the status it reported, or, when it could not be
/// reached, stale with the error remembered.
pub open spec fn after_answer(s: EnvironmentSourceStatusModel, a: SourceAnswerModel) -> EnvironmentSourceStatusModel {
    match a {
        SourceAnswerModel::Answered { status, .. } => status,
        SourceAnswerModel::Unreachable { error } => EnvironmentSourceStatusModel {
            last_error: Some(error),
            freshness: FreshnessStatus::Stale,
            ..s
        },
    }
}

/// One answer per registered source, in registration order, each reported status being
/// that of its source.
pub open spec fn answers_fit(sources: Seq<EnvironmentSourceStatusModel>, answers: Seq<SourceAnswerModel>) -> bool {
    &&& answers.len() == sources.len()
    &&& forall|k: int|
        0 <= k < answers.len() ==> (#[trigger] answers[k] matches SourceAnswerModel::Answered { status, .. }
            ==> status.descriptor.source_id == sources[k].descriptor.source_id)
}

/// A signal as System 4 records it: naming System 4 of this runtime as its source.
pub open spec fn system4_signal(
    s: InterpretedSignalModel,
    runtime_id: Seq<char>,
    recursion_path: Seq<Seq<char>>,
) -> InterpretedSignalModel {
    InterpretedSignalModel { metadata: with_source(s.metadata, runtime_id, recursion_path, SubsystemRole::System4), ..s }
}

/// An assessment as System 4 records it: naming System 4 of this runtime as its source.
pub open spec fn system4_assessment(
    a: IntelligenceAssessmentModel,
    runtime_id: Seq<char>,
    recursion_path: Seq<Seq<char>>,
) -> IntelligenceAssessmentModel {
    IntelligenceAssessmentModel {
        metadata: with_source(a.metadata, runtime_id, recursion_path, SubsystemRole::System4),
        ..a
    }
}

/// A forecast as System 4 records it: naming System 4 of this runtime as its source.
pub open spec fn system4_forecast(f: ForecastModel, runtime_id: Seq<char>, recursion_path: Seq<Seq<char>>) -> ForecastModel {
    ForecastModel { metadata: with_source(f.metadata, runtime_id, recursion_path, SubsystemRole::System4), ..f }
}

fn stamp_signals(items: Vec<InterpretedSignal>, runtime_id: &RuntimeId, recursion_path: &RecursionPath) -> (r: Vec<
    InterpretedSignal,
>)
    ensures
        view_seq(r@) == view_seq(items@).map_values(
            |s: InterpretedSignalModel| system4_signal(s, runtime_id@, recursion_path@),
        ),
{
    let mut v = items;
    let n = v.len();
    let mut i: usize = 0;
    while i < n
        invariant
            n == v@.len(),
            n == items@.len(),
            i <= n,
            forall|k: int|
                0 <= k < i ==> #[trigger] v@[k]@ == system4_signal(items@[k]@, runtime_id@, recursion_path@),
            forall|k: int| i <= k < n ==> #[trigger] v@[k]@ == items@[k]@,
        decreases n - i,
    {
        let mut x = v[i].duplicate();
        set_source(&mut x.metadata, runtime_id, recursion_path, SubsystemRole::System4);
        v.set(i, x);
        i = i + 1;
    }
    assert(view_seq(v@) =~= view_seq(items@).map_values(
        |s: InterpretedSignalModel| system4_signal(s, runtime_id@, recursion_path@),
    ));
    v
}

fn stamp_forecasts(items: Vec<Forecast>, runtime_id: &RuntimeId, recursion_path: &RecursionPath) -> (r: Vec<Forecast>)
    ensures
        view_seq(r@) == view_seq(items@).map_values(|f: ForecastModel| system4_forecast(f, runtime_id@, recursion_path@)),
{
    let mut v = items;
    let n = v.len();
    let mut i: usize = 0;
    while i < n
        invariant
            n == v@.len(),
            n == items@.len(),
            i <= n,
            forall|k: int|
                0 <= k < i ==> #[trigger] v@[k]@ == system4_forecast(items@[k]@, runtime_id@, recursion_path@),
            forall|k: int| i <= k < n ==> #[trigger] v@[k]@ == items@[k]@,
        decreases n - i,
    {
        let mut x = v[i].duplicate();
        set_source(&mut x.metadata, runtime_id, recursion_path, SubsystemRole::System4);
        v.set(i, x);
        i = i + 1;
    }
    assert(view_seq(v@) =~= view_seq(items@).map_values(
        |f: ForecastModel| system4_forecast(f, runtime_id@, recursion_path@),
    ));
    v
}

/// One System 4 intelligence cycle: what was observed, interpreted, assessed, forecast,
/// planned and proposed, the sources that were not fresh, and when.
pub struct IntelligenceCycleRecord {
    pub observations: Vec<EnvironmentalObservation>,
    pub signals: Vec<InterpretedSignal>,
    pub assessment: IntelligenceAssessment,
    pub forecasts: Vec<Forecast>,
    pub scenarios: Vec<ScenarioRouting>,
    pub proposals: Vec<ProposalRouting>,
    pub stale_sources: Vec<EnvironmentSourceStatus>,
    pub generated_at: i64,
}

/// System 4's intelligence history as plain values.
pub struct IntelligenceHistoryModel {
    pub observations: Seq<EnvironmentalObservationModel>,
    pub signals: Seq<InterpretedSignalModel>,
    pub assessments: Seq<IntelligenceAssessmentModel>,
    pub forecasts: Seq<ForecastModel>,
    pub scenarios: Seq<ScenarioRoutingModel>,
    pub proposals: Seq<ProposalRoutingModel>,
    pub last_cycle_at: Option<i64>,
}

/// System 4's intelligence history: every observation collected from the sources, every
/// cycle's signals, assessment, forecasts, scenarios and proposals, in order, and when
/// the last cycle ran.
pub struct IntelligenceHistory {
    observations: Vec<EnvironmentalObservation>,
    signals: Vec<InterpretedSignal>,
    assessments: Vec<IntelligenceAssessment>,
    forecasts: Vec<Forecast>,
    scenarios: Vec<ScenarioRouting>,
    proposals: Vec<ProposalRouting>,
    last_cycle_at: Option<i64>,
}

impl View for IntelligenceHistory {
    type V = IntelligenceHistoryModel;

    closed spec fn view(&self) -> IntelligenceHistoryModel {
        IntelligenceHistoryModel {
            observations: view_seq(self.observations@),
            signals: view_seq(self.signals@),
            assessments: view_seq(self.assessments@),
            forecasts: view_seq(self.forecasts@),
            scenarios: view_seq(self.scenarios@),
            proposals: view_seq(self.proposals@),
            last_cycle_at: self.last_cycle_at,
        }
    }
}

impl IntelligenceHistory {
    /// An empty history.
    pub fn new() -> (r: Self)
        ensures
            r@.observations.len() == 0,
            r@.signals.len() == 0,
            r@.assessments.len() == 0,
            r@.forecasts.len() == 0,
            r@.scenarios.len() == 0,
            r@.proposals.len() == 0,
            r@.last_cycle_at is None,
    {
        IntelligenceHistory {
            observations: Vec::new(),
            signals: Vec::new(),
            assessments: Vec::new(),
            forecasts: Vec::new(),
            scenarios: Vec::new(),
            proposals: Vec::new(),
            last_cycle_at: None,
        }
    }

    /// Collects what the sources answered, one answer per registered source in
    /// registration order: each source takes its answer's status (stale with the error
    /// when it could not be reached), the observations of the sources that answered are
    /// returned concatenated in order, and the history keeps them after its earlier ones.
    pub fn collect_observations(&mut self, sources: &mut SourceRegistry, answers: Vec<SourceAnswer>) -> (r: Vec<
        EnvironmentalObservation,
    >)
        requires
            old(sources).wf(),
            answers_fit(old(sources).sources(), view_seq(answers@)),
        ensures
            final(sources).wf(),
            final(sources).sources().len() == old(sources).sources().len(),
            forall|k: int|
                0 <= k < old(sources).sources().len() ==> #[trigger] final(sources).sources()[k] == after_answer(
                    old(sources).sources()[k],
                    view_seq(answers@)[k],
                ),
            view_seq(r@) == answered_observations(view_seq(answers@)),
            final(self)@ == (IntelligenceHistoryModel {
                observations: old(self)@.observations + view_seq(r@),
                ..old(self)@
            }),
    {
        let ghost start = sources.sources();
        let ghost ans = view_seq(answers@);
        let mut out: Vec<EnvironmentalObservation> = Vec::new();
        let n = answers.len();
        let mut i: usize = 0;
        while i < n
            invariant
                n == answers@.len(),
                ans == view_seq(answers@),
                answers_fit(start, ans),
                unique_sources(start),
                i <= n,
                sources.sources().len() == n,
                forall|k: int| 0 <= k < i ==> #[trigger] sources.sources()[k] == after_answer(start[k], ans[k]),
                forall|k: int| i <= k < n ==> #[trigger] sources.sources()[k] == start[k],
                view_seq(out@) == answered_observations(ans.take(i as int)),
            decreases n - i,
        {
            assert(ans.take(i + 1).drop_last() =~= ans.take(i as int));
            assert(ans.take(i + 1).last() == ans[i as int]);
            assert(ans[i as int] == answers@[i as int]@);
            let ghost before_src = sources.sources@;
            match &answers[i] {
                SourceAnswer::Answered { status, observations } => {
                    let st = status.duplicate();
                    let ghost sm = st@;
                    sources.sources.set(i, st);
                    assert(sources.sources() =~= view_seq(before_src).update(i as int, sm));
                    extend_dup(&mut out, observations);
                },
                SourceAnswer::Unreachable { error } => {
                    assert(sources.sources()[i as int] == sources.sources@[i as int]@);
                    let mut st = sources.sources[i].duplicate();
                    st.last_error = Some(error.clone());
                    st.freshness = FreshnessStatus::Stale;
                    let ghost sm = st@;
                    sources.sources.set(i, st);
                    assert(sources.sources() =~= view_seq(before_src).update(i as int, sm));
                    assert(answer_observations(ans[i as int]) =~= Seq::<EnvironmentalObservationModel>::empty());
                    assert(view_seq(out@) =~= view_seq(out@) + answer_observations(ans[i as int]));
                },
            }
            i = i + 1;
        }
        assert(ans.take(n as int) =~= ans);
        assert forall|a: int, b: int|
            0 <= a < n && 0 <= b < n && a != b implies sources.sources()[a].descriptor.source_id
            != sources.sources()[b].descriptor.source_id by {
            assert(sources.sources()[a] == after_answer(start[a], ans[a]));
            assert(sources.sources()[b] == after_answer(start[b], ans[b]));
            assert(sources.sources()[a].descriptor.source_id == start[a].descriptor.source_id);
            assert(sources.sources()[b].descriptor.source_id == start[b].descriptor.source_id);
        }
        extend_dup(&mut self.observations, &out);
        out
    }

    /// Runs the bookkeeping of one intelligence cycle on the observations collected and
    /// what the interpreter, intelligence model and forecaster returned: names System 4
    /// of this runtime as the source of the signals, the assessment and the forecasts,
    /// completes the scenarios and proposals, lists the sources that are not fresh,
    /// assembles the cycle, appends its records to the history and returns it.
    pub fn run_cycle(
        &mut self,
        sources: &SourceRegistry,
        observations: Vec<EnvironmentalObservation>,
        signals: Vec<InterpretedSignal>,
        assessment: IntelligenceAssessment,
        forecasts: Vec<Forecast>,
        scenarios: Vec<ScenarioRouting>,
        proposals: Vec<ProposalRouting>,
        runtime_id: &RuntimeId,
        recursion_path: &RecursionPath,
        now: i64,
    ) -> (r: IntelligenceCycleRecord)
        ensures
            view_seq(r.observations@) == view_seq(observations@),
            view_seq(r.signals@) == view_seq(signals@).map_values(
                |s: InterpretedSignalModel| system4_signal(s, runtime_id@, recursion_path@),
            ),
            r.assessment@ == system4_assessment(assessment@, runtime_id@, recursion_path@),
            view_seq(r.forecasts@) == view_seq(forecasts@).map_values(
                |f: ForecastModel| system4_forecast(f, runtime_id@, recursion_path@),
            ),
            view_seq(r.scenarios@) == view_seq(scenarios@).map_values(
                |s: ScenarioRoutingModel| completed_scenario(s, assessment.assessment_id@, runtime_id@, recursion_path@),
            ),
            view_seq(r.proposals@) == view_seq(proposals@).map_values(
                |p: ProposalRoutingModel| completed_proposal(p, assessment.assessment_id@, runtime_id@, recursion_path@),
            ),
            view_seq(r.stale_sources@) == stale(sources.sources()),
            r.generated_at == now,
            final(self)@ == (IntelligenceHistoryModel {
                observations: old(self)@.observations,
                signals: old(self)@.signals + view_seq(r.signals@),
                assessments: old(self)@.assessments.push(r.assessment@),
                forecasts: old(self)@.forecasts + view_seq(r.forecasts@),
                scenarios: old(self)@.scenarios + view_seq(r.scenarios@),
                proposals: old(self)@.proposals + view_seq(r.proposals@),
                last_cycle_at: Some(now),
            }),
    {
        let assessment_id = assessment.assessment_id.clone();
        let mut done_scenarios: Vec<ScenarioRouting> = Vec::new();
        let ghost in_scenarios = view_seq(scenarios@);
        let mut scenarios = scenarios;
        let n = scenarios.len();
        let mut i: usize = 0;
        while i < n
            invariant
                n == in_scenarios.len(),
                assessment_id@ == assessment.assessment_id@,
                scenarios@.len() == n - i,
                i <= n,
                forall|k: int| 0 <= k < n - i ==> #[trigger] scenarios@[k]@ == in_scenarios[i + k],
                view_seq(done_scenarios@) == in_scenarios.take(i as int).map_values(
                    |s: ScenarioRoutingModel| completed_scenario(s, assessment.assessment_id@, runtime_id@, recursion_path@),
                ),
            decreases n - i,
        {
            let s = scenarios.remove(0);
            let c = complete_scenario(s, &assessment_id, runtime_id, recursion_path);
            let ghost before = done_scenarios@;
            done_scenarios.push(c);
            assert(view_seq(done_scenarios@) =~= in_scenarios.take(i + 1).map_values(
                |s: ScenarioRoutingModel| completed_scenario(s, assessment.assessment_id@, runtime_id@, recursion_path@),
            )) by {
                assert(view_seq(done_scenarios@) =~= view_seq(before).push(c@));
            }
            i = i + 1;
        }
        assert(in_scenarios.take(n as int) =~= in_scenarios);
        let mut done_proposals: Vec<ProposalRouting> = Vec::new();
        let ghost in_proposals = view_seq(proposals@);
        let mut proposals = proposals;
        let m = proposals.len();
        let mut j: usize = 0;
        while j < m
            invariant
                m == in_proposals.len(),
                assessment_id@ == assessment.assessment_id@,
                proposals@.len() == m - j,
                j <= m,
                forall|k: int| 0 <= k < m - j ==> #[trigger] proposals@[k]@ == in_proposals[j + k],
                view_seq(done_proposals@) == in_proposals.take(j as int).map_values(
                    |p: ProposalRoutingModel| completed_proposal(p, assessment.assessment_id@, runtime_id@, recursion_path@),
                ),
            decreases m - j,
        {
            let p = proposals.remove(0);
            let c = complete_proposal(p, &assessment_id, runtime_id, recursion_path);
            let ghost before = done_proposals@;
            done_proposals.push(c);
            assert(view_seq(done_proposals@) =~= in_proposals.take(j + 1).map_values(
                |p: ProposalRoutingModel| completed_proposal(p, assessment.assessment_id@, runtime_id@, recursion_path@),
            )) by {
                assert(view_seq(done_proposals@) =~= view_seq(before).push(c@));
            }
            j = j + 1;
        }
        assert(in_proposals.take(m as int) =~= in_proposals);
        let stale_sources = sources.stale_sources();
        let signals = stamp_signals(signals, runtime_id, recursion_path);
        let forecasts = stamp_forecasts(forecasts, runtime_id, recursion_path);
        let mut assessment = assessment;
        set_source(&mut assessment.metadata, runtime_id, recursion_path, SubsystemRole::System4);
        extend_dup(&mut self.signals, &signals);
        extend_dup(&mut self.forecasts, &forecasts);
        let ghost as_before = self.assessments@;
        self.assessments.push(assessment.duplicate());
        assert(view_seq(self.assessments@) =~= view_seq(as_before).push(assessment@));
        extend_dup(&mut self.scenarios, &done_scenarios);
        extend_dup(&mut self.proposals, &done_proposals);
        self.last_cycle_at = Some(now);
        IntelligenceCycleRecord {
            observations,
            signals,
            assessment,
            forecasts,
            scenarios: done_scenarios,
            proposals: done_proposals,
            stale_sources,
            generated_at: now,
        }
    }
}

} // verus!

//! Algedonic signal lifecycle, variety records and bounded record retention.
//!
//! Instants are epoch milliseconds. The lifecycle policy role classifies signals
//! and may add escalations; the actor layer hands its results to this state
//! machine and publishes the alerts it returns.

use vstd::prelude::*;
use crate::protocol::envelope::{child_metadata, child_of, fresh_metadata, set_source_address, sourced, ProtocolMetadata};

use crate::dup::{dup_vec, extend_dup, view_seq, Duplicate};
use crate::error::FrameworkError;
use crate::protocol::address::{path_label, RecursionPath, RuntimeId, VsmAddress, VsmAddressModel};
use crate::protocol::algedonic::{
    needs_system5, AlertSeverity, AlgedonicAcknowledgement, AlgedonicAcknowledgementModel, AlgedonicAlert,
    AlgedonicAlertModel, AlgedonicCycle, AlgedonicEscalation, AlgedonicEscalationModel,
    AlgedonicLifecycleStatus, AlgedonicSeverity, AlgedonicSignalModel, AlgedonicSignalRecord,
    AlgedonicSnapshot, DispatchRecord, DispatchRecordModel,
};
use crate::protocol::system5::{dup_opt, opt_view, CrisisResponse, CrisisResponseModel};
use crate::text::concat2;
use crate::protocol::variety::{
    VarietyCycle, VarietyEstimateModel, VarietyIntervention, VarietyInterventionModel, VarietyInterventionOutcome,
    VarietyInterventionOutcomeModel, VarietyObservation, VarietyObservationModel,
};

verus! {

/// How many records of each kind the lifecycle keeps; older ones are dropped first.
pub const RETAINED_RECORDS: usize = 1000;

/// The records kept of a history: the newest `RETAINED_RECORDS`.
pub open spec fn retained<T>(s: Seq<T>) -> Seq<T> {
    if s.len() > RETAINED_RECORDS {
        s.skip(s.len() - RETAINED_RECORDS)
    } else {
        s
    }
}

/// Drops the oldest records beyond the retention limit.
pub fn retain<T>(items: &mut Vec<T>)
    ensures
        final(items)@ == retained(old(items)@),
        final(items)@.len() <= RETAINED_RECORDS,
{
    if items.len() > RETAINED_RECORDS {
        let excess = items.len() - RETAINED_RECORDS;
        let kept = items.split_off(excess);
        *items = kept;
        assert(items@ =~= retained(old(items)@));
    }
}

/// Retention keeps the newest records of a history, in order, and at most the limit of
/// them; a history within the limit is kept whole.
pub proof fn lemma_retention_keeps_newest<T>(s: Seq<T>)
    ensures
        retained(s).len() == if s.len() > RETAINED_RECORDS { RETAINED_RECORDS as nat } else { s.len() },
        forall|i: int| 0 <= i < retained(s).len() ==> #[trigger] retained(s)[i] == s[s.len() - retained(s).len() + i],
        s.len() <= RETAINED_RECORDS ==> retained(s) == s,
{
}

/// A variety observation as the runtime records it: it and its estimate name `source`
/// (the variety role of this runtime) as where they come from.
pub open spec fn stamped_observation(o: VarietyObservationModel, source: VsmAddressModel) -> VarietyObservationModel {
    VarietyObservationModel {
        metadata: sourced(o.metadata, source),
        estimate: VarietyEstimateModel { metadata: sourced(o.estimate.metadata, source), ..o.estimate },
        ..o
    }
}

/// An intervention as the runtime records it: naming `source` as where it comes from.
pub open spec fn stamped_intervention(i: VarietyInterventionModel, source: VsmAddressModel) -> VarietyInterventionModel {
    VarietyInterventionModel { metadata: sourced(i.metadata, source), ..i }
}

/// An intervention outcome as the runtime records it: naming `source` as where it comes from.
pub open spec fn stamped_outcome(
    o: VarietyInterventionOutcomeModel,
    source: VsmAddressModel,
) -> VarietyInterventionOutcomeModel {
    VarietyInterventionOutcomeModel { metadata: sourced(o.metadata, source), ..o }
}

fn stamp_interventions(items: Vec<VarietyIntervention>, source: &VsmAddress) -> (r: Vec<VarietyIntervention>)
    ensures
        view_seq(r@) == view_seq(items@).map_values(|i: VarietyInterventionModel| stamped_intervention(i, source@)),
{
    let mut v = items;
    let n = v.len();
    let mut i: usize = 0;
    while i < n
        invariant
            n == v@.len(),
            n == items@.len(),
            i <= n,
            forall|k: int| 0 <= k < i ==> #[trigger] v@[k]@ == stamped_intervention(items@[k]@, source@),
            forall|k: int| i <= k < n ==> #[trigger] v@[k]@ == items@[k]@,
        decreases n - i,
    {
        let mut x = v[i].duplicate();
        set_source_address(&mut x.metadata, source);
        v.set(i, x);
        i = i + 1;
    }
    assert(view_seq(v@) =~= view_seq(items@).map_values(|i: VarietyInterventionModel| stamped_intervention(i, source@)));
    v
}

fn stamp_outcomes(items: Vec<VarietyInterventionOutcome>, source: &VsmAddress) -> (r: Vec<VarietyInterventionOutcome>)
    ensures
        view_seq(r@) == view_seq(items@).map_values(
            |o: VarietyInterventionOutcomeModel| stamped_outcome(o, source@),
        ),
{
    let mut v = items;
    let n = v.len();
    let mut i: usize = 0;
    while i < n
        invariant
            n == v@.len(),
            n == items@.len(),
            i <= n,
            forall|k: int| 0 <= k < i ==> #[trigger] v@[k]@ == stamped_outcome(items@[k]@, source@),
            forall|k: int| i <= k < n ==> #[trigger] v@[k]@ == items@[k]@,
        decreases n - i,
    {
        let mut x = v[i].duplicate();
        set_source_address(&mut x.metadata, source);
        v.set(i, x);
        i = i + 1;
    }
    assert(view_seq(v@) =~= view_seq(items@).map_values(
        |o: VarietyInterventionOutcomeModel| stamped_outcome(o, source@),
    ));
    v
}

/// The variety records of the runtime: observations, the interventions planned for
/// them and the outcomes reported, each history kept to the retention limit.
pub struct VarietyHistory {
    observations: Vec<VarietyObservation>,
    interventions: Vec<VarietyIntervention>,
    outcomes: Vec<VarietyInterventionOutcome>,
}

impl VarietyHistory {
    /// Recorded observations, oldest first.
    pub closed spec fn observations(&self) -> Seq<VarietyObservationModel> {
        view_seq(self.observations@)
    }

    /// Planned interventions, oldest first.
    pub closed spec fn interventions(&self) -> Seq<VarietyInterventionModel> {
        view_seq(self.interventions@)
    }

    /// Reported intervention outcomes, oldest first.
    pub closed spec fn outcomes(&self) -> Seq<VarietyInterventionOutcomeModel> {
        view_seq(self.outcomes@)
    }

    /// An empty history.
    pub fn new() -> (r: Self)
        ensures
            r.observations().len() == 0,
            r.interventions().len() == 0,
            r.outcomes().len() == 0,
    {
        VarietyHistory { observations: Vec::new(), interventions: Vec::new(), outcomes: Vec::new() }
    }

    /// Records an observation and the interventions the variety policy planned for it,
    /// both naming `source` (the variety role of this runtime) as where they come from;
    /// both histories keep only their newest records. Returns the cycle, whose metadata
    /// answers the recorded observation.
    pub fn record_variety(
        &mut self,
        observation: VarietyObservation,
        interventions: Vec<VarietyIntervention>,
        source: &VsmAddress,
        now: i64,
    ) -> (r: VarietyCycle)
        ensures
            r.observation@ == stamped_observation(observation@, source@),
            view_seq(r.interventions@) == view_seq(interventions@).map_values(
                |i: VarietyInterventionModel| stamped_intervention(i, source@),
            ),
            r.outcomes@.len() == 0,
            child_of(r.metadata@, r.observation@.metadata),
            r.evaluated_at == now,
            final(self).observations() == retained(old(self).observations().push(r.observation@)),
            final(self).interventions() == retained(old(self).interventions() + view_seq(r.interventions@)),
            final(self).outcomes() == old(self).outcomes(),
    {
        let mut observation = observation;
        set_source_address(&mut observation.metadata, source);
        set_source_address(&mut observation.estimate.metadata, source);
        let interventions = stamp_interventions(interventions, source);
        let ghost ob = self.observations@;
        self.observations.push(observation.duplicate());
        assert(view_seq(self.observations@) =~= view_seq(ob).push(observation@));
        extend_dup(&mut self.interventions, &interventions);
        proof {
            assert forall|s: Seq<VarietyObservation>| retained(view_seq(s)) =~= view_seq(retained(s)) by {}
            assert forall|s: Seq<VarietyIntervention>| retained(view_seq(s)) =~= view_seq(retained(s)) by {}
        }
        retain(&mut self.observations);
        retain(&mut self.interventions);
        VarietyCycle {
            metadata: observation.metadata.child(),
            observation,
            interventions,
            outcomes: Vec::new(),
            evaluated_at: now,
        }
    }

    /// Records reported intervention outcomes, each naming `source` as where it comes
    /// from, keeping only the newest.
    pub fn record_outcomes(&mut self, outcomes: Vec<VarietyInterventionOutcome>, source: &VsmAddress)
        ensures
            final(self).outcomes() == retained(
                old(self).outcomes() + view_seq(outcomes@).map_values(
                    |o: VarietyInterventionOutcomeModel| stamped_outcome(o, source@),
                ),
            ),
            final(self).observations() == old(self).observations(),
            final(self).interventions() == old(self).interventions(),
    {
        let stamped = stamp_outcomes(outcomes, source);
        extend_dup(&mut self.outcomes, &stamped);
        proof {
            assert forall|s: Seq<VarietyInterventionOutcome>| retained(view_seq(s)) =~= view_seq(retained(s)) by {}
        }
        retain(&mut self.outcomes);
    }

    /// The recorded observations, oldest first.
    pub fn observation_records(&self) -> (r: Vec<VarietyObservation>)
        ensures
            view_seq(r@) == self.observations(),
    {
        dup_vec(&self.observations)
    }

    /// The recorded interventions, oldest first.
    pub fn intervention_records(&self) -> (r: Vec<VarietyIntervention>)
        ensures
            view_seq(r@) == self.interventions(),
    {
        dup_vec(&self.interventions)
    }

    /// The recorded outcomes, oldest first.
    pub fn outcome_records(&self) -> (r: Vec<VarietyInterventionOutcome>)
        ensures
            view_seq(r@) == self.outcomes(),
    {
        dup_vec(&self.outcomes)
    }
}

/// Statuses after which a signal is no longer waiting for acknowledgement.
pub open spec fn is_final_status(status: AlgedonicLifecycleStatus) -> bool {
    match status {
        AlgedonicLifecycleStatus::Acknowledged | AlgedonicLifecycleStatus::ActedUpon
        | AlgedonicLifecycleStatus::Resolved | AlgedonicLifecycleStatus::Escalated
        | AlgedonicLifecycleStatus::Expired => true,
        _ => false,
    }
}

/// Returns true once a signal no longer waits for acknowledgement.
pub fn is_final_algedonic_status(status: AlgedonicLifecycleStatus) -> (b: bool)
    ensures
        b == is_final_status(status),
{
    match status {
        AlgedonicLifecycleStatus::Acknowledged | AlgedonicLifecycleStatus::ActedUpon
        | AlgedonicLifecycleStatus::Resolved | AlgedonicLifecycleStatus::Escalated
        | AlgedonicLifecycleStatus::Expired => true,
        _ => false,
    }
}

/// The alert severity published for a signal severity: the same level.
pub fn alert_severity(severity: AlgedonicSeverity) -> (r: AlertSeverity)
    ensures
        r == match severity {
            AlgedonicSeverity::Low => AlertSeverity::Low,
            AlgedonicSeverity::Medium => AlertSeverity::Medium,
            AlgedonicSeverity::High => AlertSeverity::High,
            AlgedonicSeverity::Critical => AlertSeverity::Critical,
        },
{
    match severity {
        AlgedonicSeverity::Low => AlertSeverity::Low,
        AlgedonicSeverity::Medium => AlertSeverity::Medium,
        AlgedonicSeverity::High => AlertSeverity::High,
        AlgedonicSeverity::Critical => AlertSeverity::Critical,
    }
}

/// The first of the first `n` signals with this ID.
pub open spec fn first_match(signals: Seq<AlgedonicSignalModel>, id: Seq<char>, n: int) -> Option<int>
    decreases n,
{
    if n <= 0 {
        None
    } else {
        match first_match(signals, id, n - 1) {
            Some(i) => Some(i),
            None => if signals[n - 1].signal_id == id { Some(n - 1) } else { None },
        }
    }
}

/// The first signal with this ID.
pub open spec fn find_signal(signals: Seq<AlgedonicSignalModel>, id: Seq<char>) -> Option<int> {
    first_match(signals, id, signals.len() as int)
}

/// What `first_match` finds: a matching position with no match before it.
pub proof fn lemma_first_match(signals: Seq<AlgedonicSignalModel>, id: Seq<char>, n: int)
    requires
        0 <= n <= signals.len(),
    ensures
        match first_match(signals, id, n) {
            Some(i) => 0 <= i < n && signals[i].signal_id == id && forall|j: int|
                0 <= j < i ==> signals[j].signal_id != id,
            None => forall|j: int| 0 <= j < n ==> signals[j].signal_id != id,
        },
    decreases n,
{
    if n > 0 {
        lemma_first_match(signals, id, n - 1);
    }
}

/// The signals with one of them moved to a new status.
pub open spec fn set_status(signals: Seq<AlgedonicSignalModel>, i: int, status: AlgedonicLifecycleStatus) -> Seq<AlgedonicSignalModel> {
    signals.update(i, AlgedonicSignalModel { status, ..signals[i] })
}

/// Signals after acknowledgements: each acknowledgement, in order, marks the first
/// signal with its ID acknowledged.
pub open spec fn acknowledged(signals: Seq<AlgedonicSignalModel>, acks: Seq<AlgedonicAcknowledgementModel>) -> Seq<AlgedonicSignalModel>
    decreases acks.len(),
{
    if acks.len() == 0 {
        signals
    } else {
        let prev = acknowledged(signals, acks.drop_last());
        match find_signal(prev, acks.last().signal_id) {
            Some(i) => set_status(prev, i, AlgedonicLifecycleStatus::Acknowledged),
            None => prev,
        }
    }
}

/// A signal whose acknowledgement deadline has passed while it still waits.
pub open spec fn overdue(s: AlgedonicSignalModel, now: i64) -> bool {
    match s.acknowledgement_deadline {
        Some(d) => d <= now && !is_final_status(s.status),
        None => false,
    }
}

/// The signal after the expiry sweep.
pub open spec fn swept(s: AlgedonicSignalModel, now: i64) -> AlgedonicSignalModel {
    if overdue(s, now) {
        AlgedonicSignalModel { status: AlgedonicLifecycleStatus::Expired, ..s }
    } else {
        s
    }
}

/// A signal that an acknowledgement reached is never expired afterwards, however late
/// the sweep runs.
pub proof fn lemma_acknowledged_signal_never_expires(
    signals: Seq<AlgedonicSignalModel>,
    ack: AlgedonicAcknowledgementModel,
    now: i64,
)
    requires
        find_signal(signals, ack.signal_id) is Some,
    ensures
        ({
            let i = find_signal(signals, ack.signal_id)->0;
            let after = acknowledged(signals, seq![ack]);
            &&& after[i].status == AlgedonicLifecycleStatus::Acknowledged
            &&& !overdue(after[i], now)
            &&& swept(after[i], now) == after[i]
        }),
{
    lemma_first_match(signals, ack.signal_id, signals.len() as int);
    let acks = seq![ack];
    assert(acks.drop_last() =~= Seq::<AlgedonicAcknowledgementModel>::empty());
    assert(acknowledged(signals, acks.drop_last()) == signals);
    assert(acks.last() == ack);
    let i = find_signal(signals, ack.signal_id)->0;
    assert(acknowledged(signals, acks) == set_status(signals, i, AlgedonicLifecycleStatus::Acknowledged));
}

/// A signal expires at most once: after the sweep that expired it, no later sweep finds
/// it overdue again.
pub proof fn lemma_expiry_happens_once(s: AlgedonicSignalModel, now: i64, later: i64)
    requires
        overdue(s, now),
    ensures
        swept(s, now).status == AlgedonicLifecycleStatus::Expired,
        !overdue(swept(s, now), later),
        swept(swept(s, now), later) == swept(s, now),
{
}

/// The escalation raised for an overdue signal.
pub open spec fn expiry_escalation(s: AlgedonicSignalModel, target: VsmAddressModel, now: i64) -> AlgedonicEscalationModel {
    AlgedonicEscalationModel {
        metadata: child_metadata(s.metadata),
        signal_id: s.signal_id,
        target,
        unit_id: s.unit_id,
        reason: "algedonic acknowledgement deadline expired"@,
        escalated_at: now,
    }
}

/// One escalation per overdue signal, in order.
pub open spec fn expiry_escalations(signals: Seq<AlgedonicSignalModel>, target: VsmAddressModel, now: i64) -> Seq<AlgedonicEscalationModel>
    decreases signals.len(),
{
    if signals.len() == 0 {
        Seq::empty()
    } else {
        let prev = expiry_escalations(signals.drop_last(), target, now);
        if overdue(signals.last(), now) {
            prev.push(expiry_escalation(signals.last(), target, now))
        } else {
            prev
        }
    }
}

/// The acknowledgements of one signal, in order.
pub open spec fn acks_of(acks: Seq<AlgedonicAcknowledgementModel>, id: Seq<char>) -> Seq<AlgedonicAcknowledgementModel>
    decreases acks.len(),
{
    if acks.len() == 0 {
        Seq::empty()
    } else {
        let prev = acks_of(acks.drop_last(), id);
        if acks.last().signal_id == id { prev.push(acks.last()) } else { prev }
    }
}

/// The escalations of one signal, in order.
pub open spec fn escalations_of(escalations: Seq<AlgedonicEscalationModel>, id: Seq<char>) -> Seq<AlgedonicEscalationModel>
    decreases escalations.len(),
{
    if escalations.len() == 0 {
        Seq::empty()
    } else {
        let prev = escalations_of(escalations.drop_last(), id);
        if escalations.last().signal_id == id { prev.push(escalations.last()) } else { prev }
    }
}

/// No two dispatch records are for the same signal.
pub open spec fn unique_dispatches(d: Seq<DispatchRecordModel>) -> bool {
    forall|i: int, j: int| 0 <= i < d.len() && 0 <= j < d.len() && i != j ==> d[i].signal_id != d[j].signal_id
}

/// The crisis response recorded for a signal, if any.
pub open spec fn response_for(d: Seq<DispatchRecordModel>, id: Seq<char>) -> Option<CrisisResponseModel> {
    if exists|i: int| 0 <= i < d.len() && d[i].signal_id == id {
        Some(d[choose|i: int| 0 <= i < d.len() && d[i].signal_id == id].response)
    } else {
        None
    }
}

/// The error for a signal the lifecycle does not know.
pub open spec fn unknown_signal(e: FrameworkError, id: Seq<char>) -> bool {
    e matches FrameworkError::Unavailable { target } && target@ == "algedonic signal "@ + id
}

/// The signal as the lifecycle records it after classification: a signal still
/// proposed becomes classified.
pub open spec fn classified(s: AlgedonicSignalModel) -> AlgedonicSignalModel {
    if s.status == AlgedonicLifecycleStatus::Proposed {
        AlgedonicSignalModel { status: AlgedonicLifecycleStatus::Classified, ..s }
    } else {
        s
    }
}

/// A signal as the lifecycle receives it: naming `source` as where it comes from.
pub open spec fn arrived(s: AlgedonicSignalModel, source: VsmAddressModel) -> AlgedonicSignalModel {
    AlgedonicSignalModel { metadata: sourced(s.metadata, source), ..s }
}

/// The alert raised for a signal that needs System 5.
pub open spec fn alert_for(s: AlgedonicSignalModel, now: i64) -> AlgedonicAlertModel {
    AlgedonicAlertModel {
        metadata: child_metadata(s.metadata),
        signal_id: s.signal_id,
        severity: s.severity,
        message: s.reason,
        details: s.details,
        raised_at: now,
    }
}

/// Fills in the source of a signal that names none.
pub fn with_default_source(signal: AlgedonicSignalRecord, source: &VsmAddress) -> (r: AlgedonicSignalRecord)
    ensures
        r@ == (AlgedonicSignalModel {
            source: if signal@.source is None { Some(source@) } else { signal@.source },
            ..signal@
        }),
{
    if signal.source.is_none() {
        AlgedonicSignalRecord { source: Some(source.clone()), ..signal }
    } else {
        signal
    }
}

/// The algedonic lifecycle: signals, acknowledgements, escalations, alerts and the
/// crisis responses of dispatched signals.
pub struct AlgedonicLifecycle {
    signals: Vec<AlgedonicSignalRecord>,
    acknowledgements: Vec<AlgedonicAcknowledgement>,
    escalations: Vec<AlgedonicEscalation>,
    alerts: Vec<AlgedonicAlert>,
    dispatches: Vec<DispatchRecord>,
}

impl AlgedonicLifecycle {
    /// Signals, oldest first.
    pub closed spec fn signals(&self) -> Seq<AlgedonicSignalModel> {
        view_seq(self.signals@)
    }

    /// Acknowledgements, oldest first.
    pub closed spec fn acknowledgements(&self) -> Seq<AlgedonicAcknowledgementModel> {
        view_seq(self.acknowledgements@)
    }

    /// Escalations, oldest first.
    pub closed spec fn escalations(&self) -> Seq<AlgedonicEscalationModel> {
        view_seq(self.escalations@)
    }

    /// Alerts, oldest first.
    pub closed spec fn alerts(&self) -> Seq<AlgedonicAlertModel> {
        view_seq(self.alerts@)
    }

    /// Crisis responses of dispatched signals.
    pub closed spec fn dispatches(&self) -> Seq<DispatchRecordModel> {
        view_seq(self.dispatches@)
    }

    /// One crisis response per signal.
    pub open spec fn wf(&self) -> bool {
        unique_dispatches(self.dispatches())
    }

    /// An empty lifecycle.
    pub fn new() -> (r: Self)
        ensures
            r.wf(),
            r.signals().len() == 0,
            r.acknowledgements().len() == 0,
            r.escalations().len() == 0,
            r.alerts().len() == 0,
            r.dispatches().len() == 0,
    {
        let r = AlgedonicLifecycle {
            signals: Vec::new(),
            acknowledgements: Vec::new(),
            escalations: Vec::new(),
            alerts: Vec::new(),
            dispatches: Vec::new(),
        };
        assert(r.dispatches() =~= Seq::<DispatchRecordModel>::empty());
        r
    }

    fn find(&self, id: &String) -> (r: Option<usize>)
        ensures
            match r {
                Some(i) => find_signal(self.signals(), id@) == Some(i as int),
                None => find_signal(self.signals(), id@) is None,
            },
    {
        let n = self.signals.len();
        let mut i: usize = 0;
        while i < n
            invariant
                n == self.signals@.len(),
                i <= n,
                first_match(self.signals(), id@, i as int) is None,
            decreases n - i,
        {
            assert(self.signals()[i as int] == self.signals@[i as int]@);
            if self.signals[i].signal_id == *id {
                proof {
                    lemma_first_match(self.signals(), id@, i as int);
                    lemma_first_match(self.signals(), id@, self.signals().len() as int);
                }
                return Some(i);
            }
            i = i + 1;
        }
        None
    }

    /// Records a classified signal, which names `source` (the variety role of this runtime)
    /// as where it comes from: a signal still proposed becomes classified; a signal
    /// that needs System 5 raises an alert, which is kept and returned for publication;
    /// the signal is kept and its cycle returned.
    pub fn record_classified(&mut self, signal: AlgedonicSignalRecord, source: &VsmAddress, now: i64) -> (r: (
        AlgedonicCycle,
        Option<AlgedonicAlert>,
    ))
        requires
            old(self).wf(),
        ensures
            final(self).wf(),
            final(self).signals() == retained(old(self).signals().push(classified(arrived(signal@, source@)))),
            needs_system5(signal@) ==> (r.1 matches Some(a) && a@ == alert_for(arrived(signal@, source@), now))
                && final(self).alerts() == retained(old(self).alerts().push(alert_for(arrived(signal@, source@), now))),
            !needs_system5(signal@) ==> r.1 is None && final(self).alerts() == old(self).alerts(),
            r.0.signal@ == classified(arrived(signal@, source@)),
            child_of(r.0.metadata@, arrived(signal@, source@).metadata),
            view_seq(r.0.acknowledgements@) == acks_of(old(self).acknowledgements(), signal@.signal_id),
            view_seq(r.0.escalations@) == escalations_of(old(self).escalations(), signal@.signal_id),
            opt_view(r.0.crisis_response) == response_for(old(self).dispatches(), signal@.signal_id),
            r.0.recorded_at == now,
            final(self).acknowledgements() == old(self).acknowledgements(),
            final(self).escalations() == old(self).escalations(),
            final(self).dispatches() == old(self).dispatches(),
    {
        let mut signal = signal;
        set_source_address(&mut signal.metadata, source);
        if signal.status == AlgedonicLifecycleStatus::Proposed {
            signal.status = AlgedonicLifecycleStatus::Classified;
        }
        let alert = if signal.requires_system5_dispatch() {
            let a = AlgedonicAlert {
                metadata: signal.metadata.child(),
                signal_id: signal.signal_id.clone(),
                severity: signal.severity,
                message: signal.reason.clone(),
                details: signal.details.clone(),
                raised_at: now,
            };
            let ghost before = self.alerts@;
            self.alerts.push(a.duplicate());
            assert(view_seq(self.alerts@) =~= view_seq(before).push(a@));
            retain(&mut self.alerts);
            Some(a)
        } else {
            None
        };
        let ghost before = self.signals@;
        self.signals.push(signal.duplicate());
        assert(view_seq(self.signals@) =~= view_seq(before).push(signal@));
        proof {
            assert forall|s: Seq<AlgedonicSignalRecord>| retained(view_seq(s)) =~= view_seq(retained(s)) by {}
        }
        retain(&mut self.signals);
        let cycle = self.cycle_for(signal, now);
        (cycle, alert)
    }

    /// Records the crisis response System 5 gave to a dispatched signal: the first signal
    /// with that ID becomes dispatched and its cycle is returned; an unknown ID is refused.
    pub fn record_system5_dispatch(&mut self, signal_id: &String, response: CrisisResponse, now: i64) -> (r: Result<
        AlgedonicCycle,
        FrameworkError,
    >)
        requires
            old(self).wf(),
        ensures
            final(self).wf(),
            find_signal(old(self).signals(), signal_id@) is None ==> (r matches Err(e) && unknown_signal(
                e,
                signal_id@,
            )) && final(self).signals() == old(self).signals() && final(self).dispatches() == old(self).dispatches(),
            find_signal(old(self).signals(), signal_id@) matches Some(i) ==> ({
                let signals = set_status(old(self).signals(), i, AlgedonicLifecycleStatus::Dispatched);
                &&& final(self).signals() == signals
                &&& response_for(final(self).dispatches(), signal_id@) == Some(response@)
                &&& r matches Ok(c) && c.signal@ == signals[i] && opt_view(c.crisis_response) == Some(response@)
                    && view_seq(c.acknowledgements@) == acks_of(old(self).acknowledgements(), signal_id@)
                    && view_seq(c.escalations@) == escalations_of(old(self).escalations(), signal_id@)
                    && c.recorded_at == now
            }),
            final(self).acknowledgements() == old(self).acknowledgements(),
            final(self).escalations() == old(self).escalations(),
            final(self).alerts() == old(self).alerts(),
    {
        let index = match self.find(signal_id) {
            None => {
                return Err(FrameworkError::Unavailable { target: concat2("algedonic signal ", signal_id.as_str()) });
            },
            Some(i) => i,
        };
        proof {
            lemma_first_match(self.signals(), signal_id@, self.signals().len() as int);
        }
        let ghost before = self.signals();
        let mut s = self.signals[index].duplicate();
        s.status = AlgedonicLifecycleStatus::Dispatched;
        let ghost sm = s@;
        self.signals.set(index, s);
        assert(self.signals() =~= set_status(before, index as int, AlgedonicLifecycleStatus::Dispatched));
        self.insert_dispatch(signal_id, response);
        let current = self.signals[index].duplicate();
        assert(self.signals()[index as int] == self.signals@[index as int]@);
        Ok(self.cycle_for(current, now))
    }

    fn insert_dispatch(&mut self, signal_id: &String, response: CrisisResponse)
        requires
            old(self).wf(),
        ensures
            final(self).wf(),
            response_for(final(self).dispatches(), signal_id@) == Some(response@),
            final(self).signals() == old(self).signals(),
            final(self).acknowledgements() == old(self).acknowledgements(),
            final(self).escalations() == old(self).escalations(),
            final(self).alerts() == old(self).alerts(),
    {
        let ghost before = self.dispatches();
        let n = self.dispatches.len();
        let mut i: usize = 0;
        while i < n
            invariant
                n == self.dispatches@.len(),
                before == self.dispatches(),
                before == old(self).dispatches(),
                i <= n,
                self.wf(),
                self.signals() == old(self).signals(),
                self.acknowledgements() == old(self).acknowledgements(),
                self.escalations() == old(self).escalations(),
                self.alerts() == old(self).alerts(),
                forall|j: int| 0 <= j < i ==> self.dispatches()[j].signal_id != signal_id@,
            decreases n - i,
        {
            assert(self.dispatches()[i as int] == self.dispatches@[i as int]@);
            if self.dispatches[i].signal_id == *signal_id {
                let ghost rm = response@;
                let rec = DispatchRecord { signal_id: signal_id.clone(), response };
                self.dispatches.set(i, rec);
                assert(self.dispatches() =~= before.update(
                    i as int,
                    DispatchRecordModel { signal_id: signal_id@, response: rm },
                ));
                assert(self.dispatches()[i as int].signal_id == signal_id@);
                assert(before[i as int].signal_id == signal_id@);
                assert(unique_dispatches(self.dispatches()));
                assert(exists|k: int|
                    0 <= k < self.dispatches().len() && self.dispatches()[k].signal_id == signal_id@);
                let ghost c = choose|k: int|
                    0 <= k < self.dispatches().len() && self.dispatches()[k].signal_id == signal_id@;
                assert(c == i);
                return;
            }
            i = i + 1;
        }
        let ghost rm = response@;
        let rec = DispatchRecord { signal_id: signal_id.clone(), response };
        self.dispatches.push(rec);
        assert(self.dispatches() =~= before.push(DispatchRecordModel { signal_id: signal_id@, response: rm }));
        assert(self.dispatches()[n as int].signal_id == signal_id@);
        let ghost c = choose|k: int| 0 <= k < self.dispatches().len() && self.dispatches()[k].signal_id == signal_id@;
        assert(c == n);
    }

    /// Records acknowledgements in order: each marks the first signal with its ID
    /// acknowledged; the acknowledgements are kept and the snapshot returned.
    pub fn acknowledge(&mut self, acknowledgements: Vec<AlgedonicAcknowledgement>) -> (r: AlgedonicSnapshot)
        requires
            old(self).wf(),
        ensures
            final(self).wf(),
            final(self).signals() == acknowledged(old(self).signals(), view_seq(acknowledgements@)),
            final(self).acknowledgements() == retained(old(self).acknowledgements() + view_seq(acknowledgements@)),
            final(self).escalations() == old(self).escalations(),
            final(self).alerts() == old(self).alerts(),
            final(self).dispatches() == old(self).dispatches(),
            view_seq(r.signals@) == final(self).signals(),
            view_seq(r.acknowledgements@) == final(self).acknowledgements(),
    {
        let ghost acks = view_seq(acknowledgements@);
        let ghost start = self.signals();
        let n = acknowledgements.len();
        let mut i: usize = 0;
        while i < n
            invariant
                n == acknowledgements@.len(),
                acks == view_seq(acknowledgements@),
                i <= n,
                self.wf(),
                self.signals() == acknowledged(start, acks.take(i as int)),
                self.acknowledgements() == old(self).acknowledgements(),
                self.escalations() == old(self).escalations(),
                self.alerts() == old(self).alerts(),
                self.dispatches() == old(self).dispatches(),
            decreases n - i,
        {
            assert(acks.take(i + 1).drop_last() =~= acks.take(i as int));
            assert(acks.take(i + 1).last() == acknowledgements@[i as int]@);
            match self.find(&acknowledgements[i].signal_id) {
                Some(k) => {
                    proof {
                        lemma_first_match(self.signals(), acknowledgements@[i as int].signal_id@, self.signals().len() as int);
                    }
                    let ghost before = self.signals();
                    let mut s = self.signals[k].duplicate();
                    s.status = AlgedonicLifecycleStatus::Acknowledged;
                    self.signals.set(k, s);
                    assert(self.signals() =~= set_status(before, k as int, AlgedonicLifecycleStatus::Acknowledged));
                },
                None => {},
            }
            i = i + 1;
        }
        assert(acks.take(n as int) =~= acks);
        extend_dup(&mut self.acknowledgements, &acknowledgements);
        proof {
            assert forall|s: Seq<AlgedonicAcknowledgement>| retained(view_seq(s)) =~= view_seq(retained(s)) by {}
        }
        retain(&mut self.acknowledgements);
        self.snapshot()
    }

    /// Sweeps the signals at `now`: every signal whose acknowledgement deadline has passed
    /// while it still waits expires, and an escalation to `target` is returned for each,
    /// in order. The escalations are not yet recorded.
    pub fn expire_due(&mut self, now: i64, target: &VsmAddress) -> (r: Vec<AlgedonicEscalation>)
        requires
            old(self).wf(),
        ensures
            final(self).wf(),
            final(self).signals() == old(self).signals().map_values(|s: AlgedonicSignalModel| swept(s, now)),
            view_seq(r@) == expiry_escalations(old(self).signals(), target@, now),
            final(self).acknowledgements() == old(self).acknowledgements(),
            final(self).escalations() == old(self).escalations(),
            final(self).alerts() == old(self).alerts(),
            final(self).dispatches() == old(self).dispatches(),
    {
        let ghost start = self.signals();
        let mut out: Vec<AlgedonicEscalation> = Vec::new();
        let n = self.signals.len();
        let mut i: usize = 0;
        while i < n
            invariant
                n == self.signals@.len(),
                start.len() == n,
                i <= n,
                self.wf(),
                forall|k: int| 0 <= k < i ==> #[trigger] self.signals()[k] == swept(start[k], now),
                forall|k: int| i <= k < n ==> #[trigger] self.signals()[k] == start[k],
                view_seq(out@) == expiry_escalations(start.take(i as int), target@, now),
                self.acknowledgements() == old(self).acknowledgements(),
                self.escalations() == old(self).escalations(),
                self.alerts() == old(self).alerts(),
                self.dispatches() == old(self).dispatches(),
            decreases n - i,
        {
            assert(start.take(i + 1).drop_last() =~= start.take(i as int));
            assert(self.signals()[i as int] == self.signals@[i as int]@);
            assert(start.take(i + 1).last() == start[i as int]);
            let due = match self.signals[i].acknowledgement_deadline {
                Some(d) => d <= now && !is_final_algedonic_status(self.signals[i].status),
                None => false,
            };
            if due {
                let ghost before = self.signals();
                let mut s = self.signals[i].duplicate();
                s.status = AlgedonicLifecycleStatus::Expired;
                let esc = AlgedonicEscalation {
                    metadata: s.metadata.child(),
                    signal_id: s.signal_id.clone(),
                    target: target.clone(),
                    unit_id: crate::protocol::system2::copy_opt(&s.unit_id),
                    reason: "algedonic acknowledgement deadline expired".to_owned(),
                    escalated_at: now,
                };
                let ghost sm = s@;
                self.signals.set(i, s);
                assert(self.signals() =~= before.update(i as int, sm));
                let ghost eb = out@;
                let ghost em = esc@;
                out.push(esc);
                assert(view_seq(out@) =~= view_seq(eb).push(em));
            }
            i = i + 1;
        }
        assert(start.take(n as int) =~= start);
        assert(self.signals() =~= start.map_values(|s: AlgedonicSignalModel| swept(s, now)));
        out
    }

    /// Records escalations (from the expiry sweep and the lifecycle policy) in order and
    /// returns them.
    pub fn record_escalations(&mut self, escalations: Vec<AlgedonicEscalation>) -> (r: Vec<AlgedonicEscalation>)
        requires
            old(self).wf(),
        ensures
            final(self).wf(),
            view_seq(r@) == view_seq(escalations@),
            final(self).escalations() == retained(old(self).escalations() + view_seq(escalations@)),
            final(self).signals() == old(self).signals(),
            final(self).acknowledgements() == old(self).acknowledgements(),
            final(self).alerts() == old(self).alerts(),
            final(self).dispatches() == old(self).dispatches(),
    {
        extend_dup(&mut self.escalations, &escalations);
        proof {
            assert forall|s: Seq<AlgedonicEscalation>| retained(view_seq(s)) =~= view_seq(retained(s)) by {}
        }
        retain(&mut self.escalations);
        escalations
    }

    /// The cycle of a signal: its acknowledgements and escalations so far, and System 5's
    /// response if it was dispatched.
    pub fn cycle_for(&self, signal: AlgedonicSignalRecord, now: i64) -> (r: AlgedonicCycle)
        requires
            self.wf(),
        ensures
            child_of(r.metadata@, signal.metadata@),
            r.signal@ == signal@,
            view_seq(r.acknowledgements@) == acks_of(self.acknowledgements(), signal@.signal_id),
            view_seq(r.escalations@) == escalations_of(self.escalations(), signal@.signal_id),
            opt_view(r.crisis_response) == response_for(self.dispatches(), signal@.signal_id),
            r.recorded_at == now,
    {
        let id = &signal.signal_id;
        let mut acks: Vec<AlgedonicAcknowledgement> = Vec::new();
        let n = self.acknowledgements.len();
        let mut i: usize = 0;
        while i < n
            invariant
                n == self.acknowledgements@.len(),
                i <= n,
                view_seq(acks@) == acks_of(self.acknowledgements().take(i as int), id@),
            decreases n - i,
        {
            assert(self.acknowledgements().take(i + 1).drop_last() =~= self.acknowledgements().take(i as int));
            assert(self.acknowledgements().take(i + 1).last() == self.acknowledgements@[i as int]@);
            if self.acknowledgements[i].signal_id == *id {
                let ghost before = acks@;
                let a = self.acknowledgements[i].duplicate();
                acks.push(a);
                assert(view_seq(acks@) =~= view_seq(before).push(a@));
            }
            i = i + 1;
        }
        assert(self.acknowledgements().take(n as int) =~= self.acknowledgements());
        let mut escs: Vec<AlgedonicEscalation> = Vec::new();
        let m = self.escalations.len();
        let mut j: usize = 0;
        while j < m
            invariant
                m == self.escalations@.len(),
                j <= m,
                view_seq(escs@) == escalations_of(self.escalations().take(j as int), id@),
            decreases m - j,
        {
            assert(self.escalations().take(j + 1).drop_last() =~= self.escalations().take(j as int));
            assert(self.escalations().take(j + 1).last() == self.escalations@[j as int]@);
            if self.escalations[j].signal_id == *id {
                let ghost before = escs@;
                let e = self.escalations[j].duplicate();
                escs.push(e);
                assert(view_seq(escs@) =~= view_seq(before).push(e@));
            }
            j = j + 1;
        }
        assert(self.escalations().take(m as int) =~= self.escalations());
        let mut response: Option<CrisisResponse> = None;
        let d = self.dispatches.len();
        let mut k: usize = 0;
        while k < d
            invariant
                d == self.dispatches@.len(),
                k <= d,
                self.wf(),
                response is None ==> forall|x: int| 0 <= x < k ==> self.dispatches()[x].signal_id != id@,
                response is Some ==> opt_view(response) == response_for(self.dispatches(), id@),
            decreases d - k,
        {
            assert(self.dispatches()[k as int] == self.dispatches@[k as int]@);
            if response.is_none() && self.dispatches[k].signal_id == *id {
                let ghost c = choose|x: int|
                    0 <= x < self.dispatches().len() && self.dispatches()[x].signal_id == id@;
                assert(c == k);
                response = Some(self.dispatches[k].response.duplicate());
            }
            k = k + 1;
        }
        AlgedonicCycle { metadata: signal.metadata.child(), signal, acknowledgements: acks, escalations: escs, crisis_response: response, recorded_at: now }
    }

    /// A snapshot of the lifecycle; the last signal time is that of the newest signal.
    pub fn snapshot(&self) -> (r: AlgedonicSnapshot)
        ensures
            view_seq(r.signals@) == self.signals(),
            view_seq(r.acknowledgements@) == self.acknowledgements(),
            view_seq(r.escalations@) == self.escalations(),
            view_seq(r.alerts@) == self.alerts(),
            r.last_signal_at == if self.signals().len() == 0 { None } else { Some(self.signals().last().proposed_at) },
    {
        let n = self.signals.len();
        let last = if n > 0 {
            assert(self.signals().last() == self.signals@[n - 1]@);
            Some(self.signals[n - 1].proposed_at)
        } else {
            None
        };
        AlgedonicSnapshot {
            signals: dup_vec(&self.signals),
            acknowledgements: dup_vec(&self.acknowledgements),
            escalations: dup_vec(&self.escalations),
            alerts: dup_vec(&self.alerts),
            last_signal_at: last,
        }
    }
}

/// The name of the lifecycle actor: `runtime:path:variety-algedonic-temporal:lifecycle`.
pub fn variety_actor_name(runtime_id: &RuntimeId, recursion_path: &RecursionPath) -> (r: String)
    ensures
        r@ == runtime_id@ + ":"@ + path_label(recursion_path@) + ":variety-algedonic-temporal:lifecycle"@,
{
    let mut out = runtime_id.as_str().to_owned();
    out.append(":");
    let path = recursion_path.label();
    out.append(path.as_str());
    out.append(":variety-algedonic-temporal:lifecycle");
    out
}

} // verus!

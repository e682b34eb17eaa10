//! System 2 coordination state: unit views, conflicts, interventions and escalations.

use vstd::prelude::*;
use crate::protocol::envelope::{child_metadata, child_of, fresh_metadata, addressed, set_destination_address, set_source_address, sourced, ProtocolMetadata};
use crate::protocol::address::{VsmAddress, VsmAddressModel};
use crate::protocol::system2::CoordinationAckStatus;

use crate::dup::{dup_vec, extend_dup, view_seq, Duplicate};
use crate::protocol::system2::{
    ack_status_word, status_reason, CoordinationAcknowledgement, CoordinationAcknowledgementModel,
    CoordinationConflict, CoordinationConflictModel, CoordinationCycle, CoordinationEscalation, System2Snapshot,
    CoordinationEscalationModel, CoordinationIntervention, CoordinationInterventionModel, CoordinationView,
    CoordinationViewModel, CoordinationViewRecord, CoordinationViewRecordModel, CoordinationViewVersion,
};

verus! {

/// One unit view recorded at `now`: replaces the unit's previous view with the next
/// version, or adds it with the first version.
pub open spec fn recorded(
    views: Seq<CoordinationViewRecordModel>,
    view: CoordinationViewModel,
    now: i64,
) -> Seq<CoordinationViewRecordModel> {
    if exists|i: int| 0 <= i < views.len() && views[i].view.unit_id == view.unit_id {
        let i = choose|i: int| 0 <= i < views.len() && views[i].view.unit_id == view.unit_id;
        views.update(
            i,
            CoordinationViewRecordModel { view, version: views[i].version.successor(), received_at: now },
        )
    } else {
        views.push(
            CoordinationViewRecordModel { view, version: CoordinationViewVersion::first(), received_at: now },
        )
    }
}

/// Views recorded one after another.
pub open spec fn recorded_all(
    views: Seq<CoordinationViewRecordModel>,
    incoming: Seq<CoordinationViewModel>,
    now: i64,
) -> Seq<CoordinationViewRecordModel>
    decreases incoming.len(),
{
    if incoming.len() == 0 {
        views
    } else {
        recorded(recorded_all(views, incoming.drop_last(), now), incoming.last(), now)
    }
}

/// No two records are for the same unit.
pub open spec fn unique_units(views: Seq<CoordinationViewRecordModel>) -> bool {
    forall|i: int, j: int|
        0 <= i < views.len() && 0 <= j < views.len() && i != j ==> views[i].view.unit_id != views[j].view.unit_id
}

/// Every target unit has a successful acknowledgement for this intervention.
pub open spec fn satisfied(
    intervention: CoordinationInterventionModel,
    acks: Seq<CoordinationAcknowledgementModel>,
) -> bool {
    forall|t: int|
        0 <= t < intervention.target_units.len() ==> #[trigger] acked(
            intervention.intervention_id,
            intervention.target_units[t],
            acks,
        )
}

/// Some acknowledgement reports success for this intervention and unit.
pub open spec fn acked(
    intervention_id: Seq<char>,
    unit_id: Seq<char>,
    acks: Seq<CoordinationAcknowledgementModel>,
) -> bool {
    exists|a: int|
        0 <= a < acks.len() && acks[a].intervention_id == intervention_id && acks[a].unit_id == unit_id
            && acks[a].status.succeeded()
}

/// An intervention stays pending while it requires acknowledgement and is not satisfied.
pub open spec fn still_pending(
    acks: Seq<CoordinationAcknowledgementModel>,
) -> spec_fn(CoordinationInterventionModel) -> bool {
    |iv: CoordinationInterventionModel| iv.requires_ack && !satisfied(iv, acks)
}

/// `i` is the first pending intervention with this identity.
pub open spec fn first_intervention(pending: Seq<CoordinationInterventionModel>, id: Seq<char>, i: int) -> bool {
    &&& 0 <= i < pending.len()
    &&& pending[i].intervention_id == id
    &&& forall|j: int| 0 <= j < i ==> pending[j].intervention_id != id
}

/// `k` is the first conflict with this identity.
pub open spec fn first_conflict(conflicts: Seq<CoordinationConflictModel>, id: Seq<char>, k: int) -> bool {
    &&& 0 <= k < conflicts.len()
    &&& conflicts[k].conflict_id == id
    &&& forall|j: int| 0 <= j < k ==> conflicts[j].conflict_id != id
}

/// The reason an escalation carries: the acknowledgement's reason, else its status word.
pub open spec fn escalation_reason(ack: CoordinationAcknowledgementModel) -> Seq<char> {
    match ack.reason {
        Some(r) => r,
        None => ack_status_word(ack.status),
    }
}

/// The escalation an unsuccessful acknowledgement raises: the first pending intervention
/// with its identity must name a conflict, and that conflict must be known. It answers the
/// acknowledgement, comes from `source` (System 2) and goes to `destination` (System 3).
pub open spec fn escalation_for(
    pending: Seq<CoordinationInterventionModel>,
    conflicts: Seq<CoordinationConflictModel>,
    ack: CoordinationAcknowledgementModel,
    source: VsmAddressModel,
    destination: VsmAddressModel,
    now: i64,
) -> Option<CoordinationEscalationModel> {
    if exists|i: int| first_intervention(pending, ack.intervention_id, i) {
        let i = choose|i: int| first_intervention(pending, ack.intervention_id, i);
        match pending[i].conflict_id {
            Some(cid) => if exists|k: int| first_conflict(conflicts, cid, k) {
                let k = choose|k: int| first_conflict(conflicts, cid, k);
                Some(
                    CoordinationEscalationModel {
                        metadata: addressed(sourced(child_metadata(ack.metadata), source), destination),
                        conflict: conflicts[k],
                        intervention_id: ack.intervention_id,
                        reason: escalation_reason(ack),
                        escalated_at: now,
                    },
                )
            } else {
                None
            },
            None => None,
        }
    } else {
        None
    }
}

/// Escalations raised by a batch of acknowledgements, in order.
pub open spec fn escalations_for(
    pending: Seq<CoordinationInterventionModel>,
    conflicts: Seq<CoordinationConflictModel>,
    acks: Seq<CoordinationAcknowledgementModel>,
    source: VsmAddressModel,
    destination: VsmAddressModel,
    now: i64,
) -> Seq<CoordinationEscalationModel> {
    acks.filter_map(
        |a: CoordinationAcknowledgementModel|
            if a.status.succeeded() {
                None
            } else {
                escalation_for(pending, conflicts, a, source, destination, now)
            },
    )
}

/// System 2's retained coordination state.
pub struct CoordinationState {
    views: Vec<CoordinationViewRecord>,
    conflicts: Vec<CoordinationConflict>,
    pending_interventions: Vec<CoordinationIntervention>,
    acknowledgements: Vec<CoordinationAcknowledgement>,
    escalations: Vec<CoordinationEscalation>,
    last_cycle_at: Option<i64>,
}

/// Names `source` as where each conflict comes from.
fn stamp_conflicts(conflicts: Vec<CoordinationConflict>, source: &VsmAddress) -> (r: Vec<CoordinationConflict>)
    ensures
        view_seq(r@) == view_seq(conflicts@).map_values(
            |c: CoordinationConflictModel| CoordinationConflictModel { metadata: sourced(c.metadata, source@), ..c },
        ),
{
    let mut v = conflicts;
    let n = v.len();
    let mut i: usize = 0;
    while i < n
        invariant
            n == v@.len(),
            n == conflicts@.len(),
            i <= n,
            forall|k: int|
                0 <= k < i ==> #[trigger] v@[k]@ == (CoordinationConflictModel {
                    metadata: sourced(conflicts@[k]@.metadata, source@),
                    ..conflicts@[k]@
                }),
            forall|k: int| i <= k < n ==> #[trigger] v@[k]@ == conflicts@[k]@,
        decreases n - i,
    {
        let mut c = v[i].duplicate();
        set_source_address(&mut c.metadata, source);
        v.set(i, c);
        i = i + 1;
    }
    assert(view_seq(v@) =~= view_seq(conflicts@).map_values(
        |c: CoordinationConflictModel| CoordinationConflictModel { metadata: sourced(c.metadata, source@), ..c },
    ));
    v
}

/// Names `source` as where each intervention comes from.
fn stamp_interventions(interventions: Vec<CoordinationIntervention>, source: &VsmAddress) -> (r: Vec<
    CoordinationIntervention,
>)
    ensures
        view_seq(r@) == view_seq(interventions@).map_values(
            |iv: CoordinationInterventionModel| CoordinationInterventionModel {
                metadata: sourced(iv.metadata, source@),
                ..iv
            },
        ),
{
    let mut v = interventions;
    let n = v.len();
    let mut i: usize = 0;
    while i < n
        invariant
            n == v@.len(),
            n == interventions@.len(),
            i <= n,
            forall|k: int|
                0 <= k < i ==> #[trigger] v@[k]@ == (CoordinationInterventionModel {
                    metadata: sourced(interventions@[k]@.metadata, source@),
                    ..interventions@[k]@
                }),
            forall|k: int| i <= k < n ==> #[trigger] v@[k]@ == interventions@[k]@,
        decreases n - i,
    {
        let mut c = v[i].duplicate();
        set_source_address(&mut c.metadata, source);
        v.set(i, c);
        i = i + 1;
    }
    assert(view_seq(v@) =~= view_seq(interventions@).map_values(
        |iv: CoordinationInterventionModel| CoordinationInterventionModel {
            metadata: sourced(iv.metadata, source@),
            ..iv
        },
    ));
    v
}

impl CoordinationState {
    /// Recorded views, one per unit.
    pub closed spec fn views(&self) -> Seq<CoordinationViewRecordModel> {
        view_seq(self.views@)
    }

    /// Conflicts found by the latest policy cycle.
    pub closed spec fn conflicts(&self) -> Seq<CoordinationConflictModel> {
        view_seq(self.conflicts@)
    }

    /// Interventions still awaiting acknowledgement.
    pub closed spec fn pending(&self) -> Seq<CoordinationInterventionModel> {
        view_seq(self.pending_interventions@)
    }

    /// Every acknowledgement received, in order.
    pub closed spec fn acknowledgements(&self) -> Seq<CoordinationAcknowledgementModel> {
        view_seq(self.acknowledgements@)
    }

    /// Every escalation raised, in order.
    pub closed spec fn escalations(&self) -> Seq<CoordinationEscalationModel> {
        view_seq(self.escalations@)
    }

    /// Instant of the latest policy cycle.
    pub closed spec fn last_cycle_at(&self) -> Option<i64> {
        self.last_cycle_at
    }

    /// Well-formedness: at most one recorded view per unit.
    pub open spec fn wf(&self) -> bool {
        unique_units(self.views())
    }

    /// Creates an empty coordination state.
    pub fn new() -> (r: Self)
        ensures
            r.wf(),
            r.views().len() == 0,
            r.conflicts().len() == 0,
            r.pending().len() == 0,
            r.acknowledgements().len() == 0,
            r.escalations().len() == 0,
            r.last_cycle_at() is None,
    {
        let r = CoordinationState {
            views: Vec::new(),
            conflicts: Vec::new(),
            pending_interventions: Vec::new(),
            acknowledgements: Vec::new(),
            escalations: Vec::new(),
            last_cycle_at: None,
        };
        assert(r.views() =~= Seq::<CoordinationViewRecordModel>::empty());
        r
    }

    fn find_view(&self, unit_id: &String) -> (r: Option<usize>)
        ensures
            match r {
                Some(i) => i < self.views().len() && self.views()[i as int].view.unit_id == unit_id@,
                None => forall|i: int| 0 <= i < self.views().len() ==> self.views()[i].view.unit_id != unit_id@,
            },
    {
        let n = self.views.len();
        let mut i: usize = 0;
        while i < n
            invariant
                n == self.views@.len(),
                i <= n,
                forall|j: int| 0 <= j < i ==> self.views()[j].view.unit_id != unit_id@,
            decreases n - i,
        {
            if self.views[i].view.unit_id == *unit_id {
                return Some(i);
            }
            i = i + 1;
        }
        None
    }

    /// Records one unit view received at `now`.
    pub fn record_view(&mut self, view: CoordinationView, now: i64)
        requires
            old(self).wf(),
        ensures
            final(self).wf(),
            final(self).views() == recorded(old(self).views(), view@, now),
            final(self).conflicts() == old(self).conflicts(),
            final(self).pending() == old(self).pending(),
            final(self).acknowledgements() == old(self).acknowledgements(),
            final(self).escalations() == old(self).escalations(),
            final(self).last_cycle_at() == old(self).last_cycle_at(),
    {
        let ghost old_views = self.views();
        let ghost vm = view@;
        match self.find_view(&view.unit_id) {
            Some(i) => {
                let version = self.views[i].version.next();
                let record = CoordinationViewRecord { view, version, received_at: now };
                self.views.set(i, record);
                proof {
                    let c = choose|k: int| 0 <= k < old_views.len() && old_views[k].view.unit_id == vm.unit_id;
                    assert(c == i);
                    assert(self.views() =~= recorded(old_views, vm, now));
                }
            },
            None => {
                let record = CoordinationViewRecord { view, version: CoordinationViewVersion::initial(), received_at: now };
                self.views.push(record);
                assert(self.views() =~= recorded(old_views, vm, now));
            },
        }
    }

    /// Records unit views received at `now`, one after another.
    pub fn record_views(&mut self, views: Vec<CoordinationView>, now: i64)
        requires
            old(self).wf(),
        ensures
            final(self).wf(),
            final(self).views() == recorded_all(old(self).views(), view_seq(views@), now),
            final(self).conflicts() == old(self).conflicts(),
            final(self).pending() == old(self).pending(),
            final(self).acknowledgements() == old(self).acknowledgements(),
            final(self).escalations() == old(self).escalations(),
            final(self).last_cycle_at() == old(self).last_cycle_at(),
    {
        let ghost start = self.views();
        let ghost incoming = view_seq(views@);
        let mut rest = views;
        let n = rest.len();
        let mut done: usize = 0;
        while done < n
            invariant
                self.wf(),
                n == incoming.len(),
                done <= n,
                view_seq(rest@) =~= incoming.skip(done as int),
                self.views() == recorded_all(start, incoming.take(done as int), now),
                self.conflicts() == old(self).conflicts(),
                self.pending() == old(self).pending(),
                self.acknowledgements() == old(self).acknowledgements(),
                self.escalations() == old(self).escalations(),
                self.last_cycle_at() == old(self).last_cycle_at(),
            decreases n - done,
        {
            let ghost before = rest@;
            assert(view_seq(before).len() == before.len());
            assert(before.len() == n - done);
            assert(view_seq(before)[0] == incoming[done as int]);
            let v = rest.remove(0);
            assert(rest@ =~= before.subrange(1, before.len() as int));
            assert forall|k: int| 0 <= k < rest@.len() implies view_seq(rest@)[k] == incoming.skip(done + 1)[k] by {
                assert(view_seq(rest@)[k] == rest@[k]@);
                assert(rest@[k] == before[k + 1]);
                assert(view_seq(before)[k + 1] == before[k + 1]@);
            }
            assert(view_seq(rest@) =~= incoming.skip(done + 1));
            self.record_view(v, now);
            assert(incoming.take(done + 1).drop_last() =~= incoming.take(done as int));
            done = done + 1;
        }
        assert(incoming.take(n as int) =~= incoming);
    }

    /// Copies of the recorded views.
    pub fn current_views(&self) -> (r: Vec<CoordinationViewRecord>)
        ensures
            view_seq(r@) == self.views(),
    {
        dup_vec(&self.views)
    }

    /// Completes a policy cycle at `now` with the conflicts and interventions the
    /// coordination policy produced for the current views, each naming `source` (System 2
    /// of this runtime) as where it comes from: the conflicts replace the previous ones
    /// and the interventions join the pending ones.
    pub fn complete_cycle(
        &mut self,
        conflicts: Vec<CoordinationConflict>,
        interventions: Vec<CoordinationIntervention>,
        source: &VsmAddress,
        now: i64,
    ) -> (r: CoordinationCycle)
        requires
            old(self).wf(),
        ensures
            final(self).wf(),
            final(self).views() == old(self).views(),
            final(self).conflicts() == view_seq(r.conflicts@),
            final(self).pending() == old(self).pending() + view_seq(r.interventions@),
            final(self).acknowledgements() == old(self).acknowledgements(),
            final(self).escalations() == old(self).escalations(),
            final(self).last_cycle_at() == Some(now),
            fresh_metadata(r.metadata@),
            view_seq(r.views@) == old(self).views(),
            view_seq(r.conflicts@) == view_seq(conflicts@).map_values(
                |c: CoordinationConflictModel| CoordinationConflictModel { metadata: sourced(c.metadata, source@), ..c },
            ),
            view_seq(r.interventions@) == view_seq(interventions@).map_values(
                |iv: CoordinationInterventionModel| CoordinationInterventionModel {
                    metadata: sourced(iv.metadata, source@),
                    ..iv
                },
            ),
            r.acknowledgements@.len() == 0,
            r.escalations@.len() == 0,
    {
        let conflicts = stamp_conflicts(conflicts, source);
        let interventions = stamp_interventions(interventions, source);
        self.conflicts = dup_vec(&conflicts);
        extend_dup(&mut self.pending_interventions, &interventions);
        self.last_cycle_at = Some(now);
        CoordinationCycle {
            metadata: ProtocolMetadata::new(),
            views: self.current_views(),
            conflicts,
            interventions,
            acknowledgements: Vec::new(),
            escalations: Vec::new(),
        }
    }

    fn find_intervention(&self, intervention_id: &String) -> (r: Option<usize>)
        ensures
            match r {
                Some(i) => first_intervention(self.pending(), intervention_id@, i as int),
                None => forall|i: int| 0 <= i < self.pending().len() ==> self.pending()[i].intervention_id != intervention_id@,
            },
    {
        let n = self.pending_interventions.len();
        let mut i: usize = 0;
        while i < n
            invariant
                n == self.pending_interventions@.len(),
                i <= n,
                forall|j: int| 0 <= j < i ==> self.pending()[j].intervention_id != intervention_id@,
            decreases n - i,
        {
            if self.pending_interventions[i].intervention_id == *intervention_id {
                return Some(i);
            }
            i = i + 1;
        }
        None
    }

    fn find_conflict(&self, conflict_id: &String) -> (r: Option<usize>)
        ensures
            match r {
                Some(k) => first_conflict(self.conflicts(), conflict_id@, k as int),
                None => forall|k: int| 0 <= k < self.conflicts().len() ==> self.conflicts()[k].conflict_id != conflict_id@,
            },
    {
        let n = self.conflicts.len();
        let mut k: usize = 0;
        while k < n
            invariant
                n == self.conflicts@.len(),
                k <= n,
                forall|j: int| 0 <= j < k ==> self.conflicts()[j].conflict_id != conflict_id@,
            decreases n - k,
        {
            if self.conflicts[k].conflict_id == *conflict_id {
                return Some(k);
            }
            k = k + 1;
        }
        None
    }

    /// The escalation an acknowledgement raises against the current pending interventions.
    pub fn escalation_for_acknowledgement(
        &self,
        ack: &CoordinationAcknowledgement,
        source: &VsmAddress,
        destination: &VsmAddress,
        now: i64,
    ) -> (r: Option<
        CoordinationEscalation,
    >)
        ensures
            match r {
                Some(e) => escalation_for(self.pending(), self.conflicts(), ack@, source@, destination@, now) == Some(e@),
                None => escalation_for(self.pending(), self.conflicts(), ack@, source@, destination@, now) is None,
            },
    {
        let found = self.find_intervention(&ack.intervention_id);
        match found {
            None => None,
            Some(i) => {
                proof {
                    let c = choose|j: int| first_intervention(self.pending(), ack@.intervention_id, j);
                    assert(first_intervention(self.pending(), ack@.intervention_id, c));
                    assert(c == i as int);
                }
                match &self.pending_interventions[i].conflict_id {
                    None => None,
                    Some(cid) => {
                        match self.find_conflict(cid) {
                            None => None,
                            Some(k) => {
                                proof {
                                    let c = choose|j: int| first_conflict(self.conflicts(), cid@, j);
                                    assert(first_conflict(self.conflicts(), cid@, c));
                                    assert(c == k as int);
                                }
                                let reason = match &ack.reason {
                                    Some(r) => r.clone(),
                                    None => status_reason(ack.status),
                                };
                                let mut metadata = ack.metadata.child();
                                set_source_address(&mut metadata, source);
                                set_destination_address(&mut metadata, destination);
                                Some(
                                    CoordinationEscalation {
                                        metadata,
                                        conflict: self.conflicts[k].duplicate(),
                                        intervention_id: ack.intervention_id.clone(),
                                        reason,
                                        escalated_at: now,
                                    },
                                )
                            },
                        }
                    },
                }
            },
        }
    }

    fn has_success_ack(&self, intervention_id: &String, unit_id: &String) -> (b: bool)
        ensures
            b == acked(intervention_id@, unit_id@, self.acknowledgements()),
    {
        let n = self.acknowledgements.len();
        let mut a: usize = 0;
        while a < n
            invariant
                n == self.acknowledgements@.len(),
                a <= n,
                forall|j: int|
                    0 <= j < a ==> !(self.acknowledgements()[j].intervention_id == intervention_id@
                        && self.acknowledgements()[j].unit_id == unit_id@
                        && self.acknowledgements()[j].status.succeeded()),
            decreases n - a,
        {
            let ack = &self.acknowledgements[a];
            if ack.intervention_id == *intervention_id && ack.unit_id == *unit_id && ack.status.is_success() {
                assert(self.acknowledgements()[a as int] == ack@);
                return true;
            }
            a = a + 1;
        }
        false
    }

    /// Returns true when every target unit has acknowledged the intervention successfully.
    pub fn intervention_is_satisfied(&self, intervention: &CoordinationIntervention) -> (b: bool)
        ensures
            b == satisfied(intervention@, self.acknowledgements()),
    {
        let n = intervention.target_units.len();
        let mut t: usize = 0;
        while t < n
            invariant
                n == intervention.target_units@.len(),
                t <= n,
                forall|j: int|
                    0 <= j < t ==> #[trigger] acked(
                        intervention@.intervention_id,
                        intervention@.target_units[j],
                        self.acknowledgements(),
                    ),
            decreases n - t,
        {
            if !self.has_success_ack(&intervention.intervention_id, &intervention.target_units[t]) {
                assert(intervention@.target_units[t as int] == intervention.target_units@[t as int]@);
                assert(!acked(
                    intervention@.intervention_id,
                    intervention@.target_units[t as int],
                    self.acknowledgements(),
                ));
                return false;
            }
            assert(intervention@.target_units[t as int] == intervention.target_units@[t as int]@);
            t = t + 1;
        }
        true
    }

    fn retain_unacknowledged_interventions(&mut self)
        requires
            old(self).wf(),
        ensures
            final(self).wf(),
            final(self).pending() == old(self).pending().filter(still_pending(old(self).acknowledgements())),
            final(self).views() == old(self).views(),
            final(self).conflicts() == old(self).conflicts(),
            final(self).acknowledgements() == old(self).acknowledgements(),
            final(self).escalations() == old(self).escalations(),
            final(self).last_cycle_at() == old(self).last_cycle_at(),
    {
        let ghost pend = self.pending();
        let ghost acks = self.acknowledgements();
        let mut kept: Vec<CoordinationIntervention> = Vec::new();
        let n = self.pending_interventions.len();
        let mut i: usize = 0;
        while i < n
            invariant
                n == self.pending_interventions@.len(),
                i <= n,
                pend == self.pending(),
                acks == self.acknowledgements(),
                view_seq(kept@) == pend.take(i as int).filter(still_pending(acks)),
            decreases n - i,
        {
            let iv = &self.pending_interventions[i];
            assert(pend.take(i + 1).drop_last() =~= pend.take(i as int));
            assert(pend.take(i + 1).last() == iv@);
            let keep = iv.requires_ack && !self.intervention_is_satisfied(iv);
            assert(keep == still_pending(acks)(iv@));
            let ghost sp = still_pending(acks);
            proof {
                reveal(Seq::filter);
            }
            assert(pend.take(i + 1).filter(sp) == if sp(iv@) {
                pend.take(i as int).filter(sp).push(iv@)
            } else {
                pend.take(i as int).filter(sp)
            });
            if keep {
                let copy = iv.duplicate();
                let ghost before = kept@;
                kept.push(copy);
                assert(view_seq(kept@) =~= view_seq(before).push(iv@));
            }
            i = i + 1;
        }
        assert(pend.take(n as int) =~= pend);
        self.pending_interventions = kept;
    }

    /// Records unit acknowledgements at `now`. Each unsuccessful acknowledgement may raise an
    /// escalation against the interventions pending before the call; afterwards only the
    /// interventions that require acknowledgement and are not yet satisfied stay pending.
    pub fn record_acknowledgements(
        &mut self,
        acknowledgements: Vec<CoordinationAcknowledgement>,
        source: &VsmAddress,
        destination: &VsmAddress,
        now: i64,
    ) -> (r: CoordinationCycle)
        requires
            old(self).wf(),
        ensures
            fresh_metadata(r.metadata@),
            final(self).wf(),
            final(self).views() == old(self).views(),
            final(self).conflicts() == old(self).conflicts(),
            final(self).acknowledgements() == old(self).acknowledgements() + view_seq(acknowledgements@),
            final(self).escalations() == old(self).escalations() + escalations_for(
                old(self).pending(),
                old(self).conflicts(),
                view_seq(acknowledgements@),
                source@,
                destination@,
                now,
            ),
            final(self).pending() == old(self).pending().filter(still_pending(final(self).acknowledgements())),
            final(self).last_cycle_at() == old(self).last_cycle_at(),
            view_seq(r.views@) == old(self).views(),
            view_seq(r.conflicts@) == old(self).conflicts(),
            r.interventions@.len() == 0,
            view_seq(r.acknowledgements@) == view_seq(acknowledgements@),
            view_seq(r.escalations@) == escalations_for(
                old(self).pending(),
                old(self).conflicts(),
                view_seq(acknowledgements@),
                source@,
                destination@,
                now,
            ),
    {
        let ghost acks = view_seq(acknowledgements@);
        let mut raised: Vec<CoordinationEscalation> = Vec::new();
        let n = acknowledgements.len();
        let mut i: usize = 0;
        while i < n
            invariant
                n == acknowledgements@.len(),
                i <= n,
                acks == view_seq(acknowledgements@),
                self.wf(),
                self.views() == old(self).views(),
                self.conflicts() == old(self).conflicts(),
                self.pending() == old(self).pending(),
                self.acknowledgements() == old(self).acknowledgements(),
                self.escalations() == old(self).escalations(),
                self.last_cycle_at() == old(self).last_cycle_at(),
                view_seq(raised@) == escalations_for(
                    self.pending(),
                    self.conflicts(),
                    acks.take(i as int),
                    source@,
                    destination@,
                    now,
                ),
            decreases n - i,
        {
            let ack = &acknowledgements[i];
            assert(acks.take(i + 1).drop_last() =~= acks.take(i as int));
            assert(acks.take(i + 1).last() == ack@);
            if !ack.status.is_success() {
                match self.escalation_for_acknowledgement(ack, source, destination, now) {
                    Some(e) => {
                        let ghost before = raised@;
                        let ghost em = e@;
                        raised.push(e);
                        assert(view_seq(raised@) =~= view_seq(before) + seq![em]);
                    },
                    None => {},
                }
            }
            i = i + 1;
        }
        assert(acks.take(n as int) =~= acks);
        extend_dup(&mut self.acknowledgements, &acknowledgements);
        extend_dup(&mut self.escalations, &raised);
        self.retain_unacknowledged_interventions();
        CoordinationCycle {
            metadata: ProtocolMetadata::new(),
            views: self.current_views(),
            conflicts: dup_vec(&self.conflicts),
            interventions: Vec::new(),
            acknowledgements,
            escalations: raised,
        }
    }

    /// Point-in-time copy of the coordination state.
    pub fn snapshot(&self) -> (r: System2Snapshot)
        ensures
            view_seq(r.views@) == self.views(),
            view_seq(r.pending_interventions@) == self.pending(),
            view_seq(r.acknowledgements@) == self.acknowledgements(),
            view_seq(r.escalations@) == self.escalations(),
            r.last_cycle_at == self.last_cycle_at(),
    {
        System2Snapshot {
            views: self.current_views(),
            pending_interventions: dup_vec(&self.pending_interventions),
            acknowledgements: dup_vec(&self.acknowledgements),
            escalations: dup_vec(&self.escalations),
            last_cycle_at: self.last_cycle_at,
        }
    }
}

/// An acknowledgement counts as a success exactly when the unit accepted or applied the
/// intervention: if every acknowledgement for an intervention with targets rejected it
/// or failed, the intervention is not satisfied and, when it needs acknowledgement, stays
/// pending.
pub proof fn lemma_unsuccessful_acknowledgements_never_satisfy(
    iv: CoordinationInterventionModel,
    acks: Seq<CoordinationAcknowledgementModel>,
)
    requires
        iv.target_units.len() > 0,
        forall|a: int|
            0 <= a < acks.len() && #[trigger] acks[a].intervention_id == iv.intervention_id ==> (acks[a].status
                == CoordinationAckStatus::Rejected || acks[a].status == CoordinationAckStatus::Failed),
    ensures
        !satisfied(iv, acks),
        iv.requires_ack ==> still_pending(acks)(iv),
{
    if acked(iv.intervention_id, iv.target_units[0], acks) {
        let a = choose|a: int|
            0 <= a < acks.len() && acks[a].intervention_id == iv.intervention_id && acks[a].unit_id
                == iv.target_units[0] && acks[a].status.succeeded();
        assert(acks[a].intervention_id == iv.intervention_id);
        assert(false);
    }
}

/// An intervention whose every target accepted or applied it is satisfied and leaves
/// the pending list.
pub proof fn lemma_accepted_or_applied_satisfy(iv: CoordinationInterventionModel, acks: Seq<CoordinationAcknowledgementModel>)
    requires
        forall|t: int|
            0 <= t < iv.target_units.len() ==> exists|a: int|
                0 <= a < acks.len() && acks[a].intervention_id == iv.intervention_id && acks[a].unit_id
                    == #[trigger] iv.target_units[t] && (acks[a].status == CoordinationAckStatus::Accepted
                    || acks[a].status == CoordinationAckStatus::Applied),
    ensures
        satisfied(iv, acks),
        !still_pending(acks)(iv),
{
    assert forall|t: int| 0 <= t < iv.target_units.len() implies #[trigger] acked(
        iv.intervention_id,
        iv.target_units[t],
        acks,
    ) by {
        let a = choose|a: int|
            0 <= a < acks.len() && acks[a].intervention_id == iv.intervention_id && acks[a].unit_id
                == iv.target_units[t] && (acks[a].status == CoordinationAckStatus::Accepted || acks[a].status
                == CoordinationAckStatus::Applied);
        assert(acks[a].status.succeeded());
    }
}

/// One more acknowledgement in a batch: an accepted or applied one raises no escalation,
/// and a rejected or failed one raises the escalation its intervention and conflict call
/// for, after those of the batch before it.
pub proof fn lemma_acknowledgement_escalation(
    pending: Seq<CoordinationInterventionModel>,
    conflicts: Seq<CoordinationConflictModel>,
    acks: Seq<CoordinationAcknowledgementModel>,
    ack: CoordinationAcknowledgementModel,
    source: VsmAddressModel,
    destination: VsmAddressModel,
    now: i64,
)
    ensures
        ack.status == CoordinationAckStatus::Accepted || ack.status == CoordinationAckStatus::Applied
            ==> escalations_for(pending, conflicts, acks.push(ack), source, destination, now) == escalations_for(
            pending,
            conflicts,
            acks,
            source,
            destination,
            now,
        ),
        ack.status == CoordinationAckStatus::Rejected || ack.status == CoordinationAckStatus::Failed
            ==> escalations_for(pending, conflicts, acks.push(ack), source, destination, now) == escalations_for(
            pending,
            conflicts,
            acks,
            source,
            destination,
            now,
        ) + match escalation_for(pending, conflicts, ack, source, destination, now) {
            Some(e) => seq![e],
            None => Seq::empty(),
        },
{
    assert(acks.push(ack).drop_last() =~= acks);
    assert(acks.push(ack).last() == ack);
    let prev = escalations_for(pending, conflicts, acks, source, destination, now);
    assert(prev + Seq::<CoordinationEscalationModel>::empty() =~= prev);
}

/// Once acknowledgements are recorded, every intervention left pending requires
/// acknowledgement and still lacks a successful acknowledgement from some target.
pub proof fn lemma_pending_interventions_are_unsatisfied(
    pending: Seq<CoordinationInterventionModel>,
    acks: Seq<CoordinationAcknowledgementModel>,
)
    ensures
        forall|i: int|
            0 <= i < pending.filter(still_pending(acks)).len() ==> {
                let iv = #[trigger] pending.filter(still_pending(acks))[i];
                iv.requires_ack && !satisfied(iv, acks)
            },
{
    assert forall|i: int| 0 <= i < pending.filter(still_pending(acks)).len() implies {
        let iv = #[trigger] pending.filter(still_pending(acks))[i];
        iv.requires_ack && !satisfied(iv, acks)
    } by {
        pending.lemma_filter_pred(still_pending(acks), i);
    }
}

/// An intervention that requires acknowledgement and is not yet satisfied is never dropped
/// by recording acknowledgements that leave it unsatisfied.
pub proof fn lemma_unsatisfied_interventions_stay_pending(
    pending: Seq<CoordinationInterventionModel>,
    acks: Seq<CoordinationAcknowledgementModel>,
    i: int,
)
    requires
        0 <= i < pending.len(),
        pending[i].requires_ack,
        !satisfied(pending[i], acks),
    ensures
        pending.filter(still_pending(acks)).contains(pending[i]),
{
    pending.lemma_filter_contains(still_pending(acks), i);
}

/// Recording a view for a unit that already has one keeps a single record for the unit and
/// advances its version; a new unit starts at the first version.
pub proof fn lemma_view_versions_advance(
    views: Seq<CoordinationViewRecordModel>,
    view: CoordinationViewModel,
    now: i64,
    i: int,
)
    requires
        unique_units(views),
        0 <= i < views.len(),
        views[i].view.unit_id == view.unit_id,
    ensures
        recorded(views, view, now).len() == views.len(),
        recorded(views, view, now)[i].version == views[i].version.successor(),
        recorded(views, view, now)[i].view == view,
{
    let c = choose|k: int| 0 <= k < views.len() && views[k].view.unit_id == view.unit_id;
    assert(c == i);
}

/// The name of the coordination actor: `runtime:path:System2:coordination`.
pub fn coordination_actor_name(
    runtime_id: &crate::protocol::address::RuntimeId,
    recursion_path: &crate::protocol::address::RecursionPath,
) -> (r: String)
    ensures
        r@ == runtime_id@ + ":"@ + crate::protocol::address::path_label(recursion_path@) + ":System2:coordination"@,
{
    let mut out = runtime_id.as_str().to_owned();
    out.append(":");
    let path = recursion_path.label();
    out.append(path.as_str());
    out.append(":System2:coordination");
    out
}

} // verus!

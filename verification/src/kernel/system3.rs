//! System 3 resource governance and System 3* audit.
//!
//! The governance and audit roles are consulted by the actor layer; their results
//! are handed to these state machines, which stamp authority, derive
//! acknowledgements and summaries, and keep the control history.

use vstd::prelude::*;
use crate::protocol::envelope::{child_metadata, child_of, fresh_metadata, set_source_address, sourced, ProtocolMetadata};

use crate::dup::{extend_dup, view_seq, Duplicate};
use crate::error::FrameworkError;
use crate::kernel::system1::{PerformanceObservation, PerformanceObservationModel};
use crate::protocol::address::{path_label, RecursionPath, RuntimeId, VsmAddress, VsmAddressModel};
use crate::protocol::system3::{
    ensure_authority, AuditFinding, AuditFindingModel, AuditResponse, AuditResponseModel, AuthorityScope, ControlAckStatus, ControlAuthorityModel,
    DirectiveAcknowledgement, DirectiveAcknowledgementModel, OperationalDirective, OperationalDirectiveModel,
    OperationalSummary, OperationalSummaryModel, ResourceAllocation, ResourceAllocationAcknowledgement,
    ResourceAllocationAcknowledgementModel, ResourceAllocationModel, ResourceRequest, ResourceRequestModel,
    RemediationAction, RemediationActionModel, System3AuditRequest, System3ControlCycle, System3Snapshot,
};
use crate::protocol::system2::opt_text;
use crate::support::{fresh_uuid, is_uuid_v4_text};
use crate::text::{concat2, texts};

verus! {

/// An authority after System 3 has stamped it: the issuer is filled in when missing and
/// the scope is the one System 3 acts under.
pub open spec fn authorized(a: ControlAuthorityModel, issuer: VsmAddressModel, scope: AuthorityScope) -> ControlAuthorityModel {
    ControlAuthorityModel {
        issued_by: if a.issued_by is None { Some(issuer) } else { a.issued_by },
        scope,
        ..a
    }
}

/// A request as System 3 records it: System 3 named as its source.
pub open spec fn governed_request(q: ResourceRequestModel, issuer: VsmAddressModel) -> ResourceRequestModel {
    ResourceRequestModel { metadata: sourced(q.metadata, issuer), ..q }
}

/// An allocation as System 3 forwards it: System 3 named as its source and its authority.
pub open spec fn governed_allocation(a: ResourceAllocationModel, issuer: VsmAddressModel) -> ResourceAllocationModel {
    ResourceAllocationModel {
        metadata: sourced(a.metadata, issuer),
        authority: authorized(a.authority, issuer, AuthorityScope::ResourceGovernance),
        ..a
    }
}

/// A directive as System 3 forwards it: System 3 named as its source and its authority.
pub open spec fn governed_directive(d: OperationalDirectiveModel, issuer: VsmAddressModel) -> OperationalDirectiveModel {
    OperationalDirectiveModel {
        metadata: sourced(d.metadata, issuer),
        authority: authorized(d.authority, issuer, AuthorityScope::OperationalControl),
        ..d
    }
}

/// The acknowledgement recorded for an allocation that needs one.
pub open spec fn accepted_ack(a: ResourceAllocationModel, now: i64) -> ResourceAllocationAcknowledgementModel {
    ResourceAllocationAcknowledgementModel {
        metadata: child_metadata(a.metadata),
        allocation_id: a.allocation_id,
        target_unit: a.target_unit,
        status: ControlAckStatus::Accepted,
        reason: None,
        observed_at: now,
    }
}

/// Accepted acknowledgements for the allocations that require one, in order.
pub open spec fn acks_for(allocations: Seq<ResourceAllocationModel>, now: i64) -> Seq<ResourceAllocationAcknowledgementModel>
    decreases allocations.len(),
{
    if allocations.len() == 0 {
        Seq::empty()
    } else {
        let prev = acks_for(allocations.drop_last(), now);
        if allocations.last().requires_ack {
            prev.push(accepted_ack(allocations.last(), now))
        } else {
            prev
        }
    }
}

/// Units named by allocations, in order; allocations without a target unit name none.
pub open spec fn allocation_units(allocations: Seq<ResourceAllocationModel>) -> Seq<Seq<char>>
    decreases allocations.len(),
{
    if allocations.len() == 0 {
        Seq::empty()
    } else {
        let prev = allocation_units(allocations.drop_last());
        match allocations.last().target_unit {
            Some(u) => prev.push(u),
            None => prev,
        }
    }
}

/// Target units of all directives, in order.
pub open spec fn directive_units(directives: Seq<OperationalDirectiveModel>) -> Seq<Seq<char>>
    decreases directives.len(),
{
    if directives.len() == 0 {
        Seq::empty()
    } else {
        directive_units(directives.drop_last()) + directives.last().target_units
    }
}

/// Units of the acknowledgements, in order.
pub open spec fn ack_units(acks: Seq<DirectiveAcknowledgementModel>) -> Seq<Seq<char>> {
    acks.map_values(|a: DirectiveAcknowledgementModel| a.unit_id)
}

/// How many acknowledgements report neither acceptance nor application.
pub open spec fn failed_acks(acks: Seq<DirectiveAcknowledgementModel>) -> nat
    decreases acks.len(),
{
    if acks.len() == 0 {
        0
    } else {
        failed_acks(acks.drop_last()) + if acks.last().status.succeeded() { 0nat } else { 1nat }
    }
}

/// An acknowledgement that reports a failure: the target rejected the decision, could not
/// apply it, or let it expire.
pub open spec fn reports_failure(status: ControlAckStatus) -> bool {
    status == ControlAckStatus::Rejected || status == ControlAckStatus::Failed || status == ControlAckStatus::Expired
}

/// The failed-acknowledgement count of a batch followed by another is the sum of their
/// counts.
pub proof fn lemma_failed_acks_add(acks: Seq<DirectiveAcknowledgementModel>, more: Seq<DirectiveAcknowledgementModel>)
    ensures
        failed_acks(acks + more) == failed_acks(acks) + failed_acks(more),
    decreases more.len(),
{
    if more.len() == 0 {
        assert(acks + more =~= acks);
    } else {
        lemma_failed_acks_add(acks, more.drop_last());
        assert((acks + more).drop_last() =~= acks + more.drop_last());
        assert((acks + more).last() == more.last());
    }
}

/// The failed-acknowledgement count of a summary counts exactly the acknowledgements
/// reporting a rejection, a failure or an expiry: one such acknowledgement counts one,
/// an accepted or applied one counts nothing, the count never exceeds the batch, is
/// nil for a batch of acceptances and applications, and is the whole batch when every
/// acknowledgement reports a failure.
pub proof fn lemma_failed_acknowledgement_count(acks: Seq<DirectiveAcknowledgementModel>, a: DirectiveAcknowledgementModel)
    ensures
        failed_acks(seq![a]) == if reports_failure(a.status) { 1nat } else { 0nat },
        a.status == ControlAckStatus::Accepted || a.status == ControlAckStatus::Applied ==> failed_acks(acks.push(a))
            == failed_acks(acks),
        reports_failure(a.status) ==> failed_acks(acks.push(a)) == failed_acks(acks) + 1,
        failed_acks(acks) <= acks.len(),
        (forall|i: int| 0 <= i < acks.len() ==> !reports_failure(#[trigger] acks[i].status)) ==> failed_acks(acks)
            == 0,
        (forall|i: int| 0 <= i < acks.len() ==> reports_failure(#[trigger] acks[i].status)) ==> failed_acks(acks)
            == acks.len(),
    decreases acks.len(),
{
    assert(seq![a].drop_last() =~= Seq::<DirectiveAcknowledgementModel>::empty());
    assert(failed_acks(Seq::<DirectiveAcknowledgementModel>::empty()) == 0);
    assert(seq![a].last() == a);
    assert(acks.push(a).drop_last() =~= acks);
    if acks.len() > 0 {
        lemma_failed_acknowledgement_count(acks.drop_last(), acks.last());
        assert(acks.drop_last().push(acks.last()) =~= acks);
        assert forall|i: int| 0 <= i < acks.drop_last().len() implies acks.drop_last()[i] == acks[i] by {}
    }
}

/// Whether a summary describes the given requests, allocations, directives and
/// acknowledgements at `now`.
pub open spec fn summarizes(
    s: OperationalSummaryModel,
    requests: nat,
    allocations: Seq<ResourceAllocationModel>,
    directives: Seq<OperationalDirectiveModel>,
    acks: Seq<DirectiveAcknowledgementModel>,
    now: i64,
) -> bool {
    &&& fresh_metadata(s.metadata)
    &&& s.resource_request_count == requests
    &&& s.allocation_count == allocations.len()
    &&& s.directive_count == directives.len()
    &&& s.failed_acknowledgement_count == failed_acks(acks)
    &&& s.generated_at == now
    &&& s.affected_units == allocation_units(allocations) + directive_units(directives) + ack_units(acks)
    &&& exists|id: Seq<char>| is_uuid_v4_text(id) && s.summary_id == "summary-"@ + id
}

/// Stamps System 3's authority on allocations returned by resource governance.
pub fn govern_allocations(allocations: Vec<ResourceAllocation>, issuer: &VsmAddress) -> (r: Vec<ResourceAllocation>)
    ensures
        view_seq(r@) == view_seq(allocations@).map_values(
            |a: ResourceAllocationModel| governed_allocation(a, issuer@),
        ),
{
    let mut v = allocations;
    let n = v.len();
    let mut i: usize = 0;
    while i < n
        invariant
            n == v@.len(),
            n == allocations@.len(),
            i <= n,
            forall|k: int| 0 <= k < i ==> #[trigger] v@[k]@ == governed_allocation(allocations@[k]@, issuer@),
            forall|k: int| i <= k < n ==> #[trigger] v@[k]@ == allocations@[k]@,
        decreases n - i,
    {
        let mut a = v[i].duplicate();
        set_source_address(&mut a.metadata, issuer);
        ensure_authority(&mut a.authority, issuer, &AuthorityScope::ResourceGovernance);
        v.set(i, a);
        i = i + 1;
    }
    assert(view_seq(v@) =~= view_seq(allocations@).map_values(
        |a: ResourceAllocationModel| governed_allocation(a, issuer@),
    ));
    v
}

/// Names System 3 as the source of resource requests it records.
pub fn govern_requests(requests: Vec<ResourceRequest>, issuer: &VsmAddress) -> (r: Vec<ResourceRequest>)
    ensures
        view_seq(r@) == view_seq(requests@).map_values(|q: ResourceRequestModel| governed_request(q, issuer@)),
{
    let mut v = requests;
    let n = v.len();
    let mut i: usize = 0;
    while i < n
        invariant
            n == v@.len(),
            n == requests@.len(),
            i <= n,
            forall|k: int| 0 <= k < i ==> #[trigger] v@[k]@ == governed_request(requests@[k]@, issuer@),
            forall|k: int| i <= k < n ==> #[trigger] v@[k]@ == requests@[k]@,
        decreases n - i,
    {
        let mut q = v[i].duplicate();
        set_source_address(&mut q.metadata, issuer);
        v.set(i, q);
        i = i + 1;
    }
    assert(view_seq(v@) =~= view_seq(requests@).map_values(|q: ResourceRequestModel| governed_request(q, issuer@)));
    v
}

/// Stamps System 3's authority on directives returned by operational control planning.
pub fn govern_directives(directives: Vec<OperationalDirective>, issuer: &VsmAddress) -> (r: Vec<OperationalDirective>)
    ensures
        view_seq(r@) == view_seq(directives@).map_values(
            |d: OperationalDirectiveModel| governed_directive(d, issuer@),
        ),
{
    let mut v = directives;
    let n = v.len();
    let mut i: usize = 0;
    while i < n
        invariant
            n == v@.len(),
            n == directives@.len(),
            i <= n,
            forall|k: int| 0 <= k < i ==> #[trigger] v@[k]@ == governed_directive(directives@[k]@, issuer@),
            forall|k: int| i <= k < n ==> #[trigger] v@[k]@ == directives@[k]@,
        decreases n - i,
    {
        let mut d = v[i].duplicate();
        set_source_address(&mut d.metadata, issuer);
        ensure_authority(&mut d.authority, issuer, &AuthorityScope::OperationalControl);
        v.set(i, d);
        i = i + 1;
    }
    assert(view_seq(v@) =~= view_seq(directives@).map_values(
        |d: OperationalDirectiveModel| governed_directive(d, issuer@),
    ));
    v
}

/// Accepted acknowledgements for the allocations that require acknowledgement.
pub fn allocation_acknowledgements(allocations: &Vec<ResourceAllocation>, now: i64) -> (r: Vec<
    ResourceAllocationAcknowledgement,
>)
    ensures
        view_seq(r@) == acks_for(view_seq(allocations@), now),
{
    let mut out: Vec<ResourceAllocationAcknowledgement> = Vec::new();
    let n = allocations.len();
    let mut i: usize = 0;
    while i < n
        invariant
            n == allocations@.len(),
            i <= n,
            view_seq(out@) == acks_for(view_seq(allocations@).take(i as int), now),
        decreases n - i,
    {
        let ghost all = view_seq(allocations@);
        assert(all.take(i + 1).drop_last() =~= all.take(i as int));
        assert(all.take(i + 1).last() == allocations@[i as int]@);
        if allocations[i].requires_ack {
            let ack = ResourceAllocationAcknowledgement::accepted(&allocations[i], now);
            let ghost before = out@;
            out.push(ack);
            assert(view_seq(out@) =~= view_seq(before).push(ack@));
        }
        i = i + 1;
    }
    assert(view_seq(allocations@).take(n as int) =~= view_seq(allocations@));
    out
}

fn collect_allocation_units(allocations: &Vec<ResourceAllocation>, out: &mut Vec<String>)
    ensures
        texts(final(out)@) == texts(old(out)@) + allocation_units(view_seq(allocations@)),
{
    let n = allocations.len();
    let mut i: usize = 0;
    let ghost start = texts(out@);
    while i < n
        invariant
            n == allocations@.len(),
            i <= n,
            texts(out@) == start + allocation_units(view_seq(allocations@).take(i as int)),
        decreases n - i,
    {
        let ghost all = view_seq(allocations@);
        assert(all.take(i + 1).drop_last() =~= all.take(i as int));
        assert(all.take(i + 1).last() == allocations@[i as int]@);
        match &allocations[i].target_unit {
            Some(u) => {
                let ghost before = out@;
                out.push(u.clone());
                assert(texts(out@) =~= texts(before).push(u@));
            },
            None => {},
        }
        i = i + 1;
    }
    assert(view_seq(allocations@).take(n as int) =~= view_seq(allocations@));
}

fn collect_directive_units(directives: &Vec<OperationalDirective>, out: &mut Vec<String>)
    ensures
        texts(final(out)@) == texts(old(out)@) + directive_units(view_seq(directives@)),
{
    let n = directives.len();
    let mut i: usize = 0;
    let ghost start = texts(out@);
    while i < n
        invariant
            n == directives@.len(),
            i <= n,
            texts(out@) == start + directive_units(view_seq(directives@).take(i as int)),
        decreases n - i,
    {
        let ghost all = view_seq(directives@);
        assert(all.take(i + 1).drop_last() =~= all.take(i as int));
        assert(all.take(i + 1).last() == directives@[i as int]@);
        let targets = &directives[i].target_units;
        let m = targets.len();
        let mut j: usize = 0;
        let ghost mid = texts(out@);
        while j < m
            invariant
                m == targets@.len(),
                j <= m,
                texts(out@) == mid + texts(targets@).take(j as int),
            decreases m - j,
        {
            let ghost before = out@;
            out.push(targets[j].clone());
            assert(texts(out@) =~= texts(before).push(targets@[j as int]@));
            assert(texts(targets@).take(j + 1) =~= texts(targets@).take(j as int).push(targets@[j as int]@));
            j = j + 1;
        }
        assert(texts(targets@).take(m as int) =~= texts(targets@));
        assert(texts(out@) =~= start + directive_units(all.take(i + 1)));
        i = i + 1;
    }
    assert(view_seq(directives@).take(n as int) =~= view_seq(directives@));
}

fn count_failed(acks: &Vec<DirectiveAcknowledgement>) -> (r: usize)
    ensures
        r == failed_acks(view_seq(acks@)),
{
    let n = acks.len();
    let mut count: usize = 0;
    let mut i: usize = 0;
    while i < n
        invariant
            n == acks@.len(),
            i <= n,
            count <= i,
            count == failed_acks(view_seq(acks@).take(i as int)),
        decreases n - i,
    {
        let ghost all = view_seq(acks@);
        assert(all.take(i + 1).drop_last() =~= all.take(i as int));
        assert(all.take(i + 1).last() == acks@[i as int]@);
        if !acks[i].status.is_success() {
            count = count + 1;
        }
        i = i + 1;
    }
    assert(view_seq(acks@).take(n as int) =~= view_seq(acks@));
    count
}

/// Summarizes one control step with a generated `summary-` identity: the counts, the
/// failed acknowledgements and the affected units (allocation targets, then directive
/// targets, then acknowledging units).
pub fn operational_summary(
    request_count: usize,
    allocations: &Vec<ResourceAllocation>,
    directives: &Vec<OperationalDirective>,
    acknowledgements: &Vec<DirectiveAcknowledgement>,
    now: i64,
) -> (r: OperationalSummary)
    ensures
        summarizes(
            r@,
            request_count as nat,
            view_seq(allocations@),
            view_seq(directives@),
            view_seq(acknowledgements@),
            now,
        ),
{
    let mut affected: Vec<String> = Vec::new();
    collect_allocation_units(allocations, &mut affected);
    collect_directive_units(directives, &mut affected);
    let ghost before = texts(affected@);
    let n = acknowledgements.len();
    let mut i: usize = 0;
    while i < n
        invariant
            n == acknowledgements@.len(),
            i <= n,
            texts(affected@) == before + ack_units(view_seq(acknowledgements@)).take(i as int),
        decreases n - i,
    {
        let ghost prev = affected@;
        affected.push(acknowledgements[i].unit_id.clone());
        assert(texts(affected@) =~= texts(prev).push(acknowledgements@[i as int].unit_id@));
        assert(ack_units(view_seq(acknowledgements@)).take(i + 1) =~= ack_units(view_seq(acknowledgements@)).take(
            i as int,
        ).push(acknowledgements@[i as int].unit_id@));
        i = i + 1;
    }
    assert(ack_units(view_seq(acknowledgements@)).take(n as int) =~= ack_units(view_seq(acknowledgements@)));
    let failed = count_failed(acknowledgements);
    let id = fresh_uuid();
    let summary_id = concat2("summary-", id.as_str());
    assert(summary_id@ == "summary-"@ + id@);
    OperationalSummary {
        metadata: ProtocolMetadata::new(),
        summary_id,
        resource_request_count: request_count,
        allocation_count: allocations.len(),
        directive_count: directives.len(),
        failed_acknowledgement_count: failed,
        generated_at: now,
        affected_units: affected,
    }
}

/// System 3's control history.
pub struct ControlState {
    resource_requests: Vec<ResourceRequest>,
    performance: Vec<PerformanceObservation>,
    allocations: Vec<ResourceAllocation>,
    allocation_acknowledgements: Vec<ResourceAllocationAcknowledgement>,
    directives: Vec<OperationalDirective>,
    directive_acknowledgements: Vec<DirectiveAcknowledgement>,
    summaries: Vec<OperationalSummary>,
    last_cycle_at: Option<i64>,
}

/// The control history as plain values.
pub struct ControlHistory {
    pub resource_requests: Seq<ResourceRequestModel>,
    pub performance: Seq<PerformanceObservationModel>,
    pub allocations: Seq<ResourceAllocationModel>,
    pub allocation_acknowledgements: Seq<ResourceAllocationAcknowledgementModel>,
    pub directives: Seq<OperationalDirectiveModel>,
    pub directive_acknowledgements: Seq<DirectiveAcknowledgementModel>,
    pub summaries: Seq<OperationalSummaryModel>,
    pub last_cycle_at: Option<i64>,
}

impl View for ControlState {
    type V = ControlHistory;

    closed spec fn view(&self) -> ControlHistory {
        ControlHistory {
            resource_requests: view_seq(self.resource_requests@),
            performance: view_seq(self.performance@),
            allocations: view_seq(self.allocations@),
            allocation_acknowledgements: view_seq(self.allocation_acknowledgements@),
            directives: view_seq(self.directives@),
            directive_acknowledgements: view_seq(self.directive_acknowledgements@),
            summaries: view_seq(self.summaries@),
            last_cycle_at: self.last_cycle_at,
        }
    }
}

impl ControlState {
    /// An empty history.
    pub fn new() -> (r: Self)
        ensures
            r@.resource_requests.len() == 0,
            r@.performance.len() == 0,
            r@.allocations.len() == 0,
            r@.allocation_acknowledgements.len() == 0,
            r@.directives.len() == 0,
            r@.directive_acknowledgements.len() == 0,
            r@.summaries.len() == 0,
            r@.last_cycle_at is None,
    {
        ControlState {
            resource_requests: Vec::new(),
            performance: Vec::new(),
            allocations: Vec::new(),
            allocation_acknowledgements: Vec::new(),
            directives: Vec::new(),
            directive_acknowledgements: Vec::new(),
            summaries: Vec::new(),
            last_cycle_at: None,
        }
    }

    /// Runs one resource-governance cycle on the results of the governance and planning
    /// roles: stamps authority on allocations and directives, acknowledges the allocations
    /// that need it, summarizes the cycle, appends everything to the history and returns
    /// the cycle.
    pub fn govern_resources(
        &mut self,
        requests: Vec<ResourceRequest>,
        performance: Vec<PerformanceObservation>,
        allocations: Vec<ResourceAllocation>,
        directives: Vec<OperationalDirective>,
        issuer: &VsmAddress,
        now: i64,
    ) -> (r: System3ControlCycle)
        ensures
            fresh_metadata(r.metadata@),
            view_seq(r.resource_requests@) == view_seq(requests@).map_values(
                |q: ResourceRequestModel| governed_request(q, issuer@),
            ),
            view_seq(r.performance@) == view_seq(performance@),
            view_seq(r.allocations@) == view_seq(allocations@).map_values(
                |a: ResourceAllocationModel| governed_allocation(a, issuer@),
            ),
            view_seq(r.allocation_acknowledgements@) == acks_for(view_seq(r.allocations@), now),
            view_seq(r.directives@) == view_seq(directives@).map_values(
                |d: OperationalDirectiveModel| governed_directive(d, issuer@),
            ),
            r.directive_acknowledgements@.len() == 0,
            r.summaries@.len() == 1,
            summarizes(
                r.summaries@[0]@,
                requests@.len(),
                view_seq(r.allocations@),
                view_seq(r.directives@),
                Seq::empty(),
                now,
            ),
            final(self)@ == (ControlHistory {
                resource_requests: old(self)@.resource_requests + view_seq(r.resource_requests@),
                performance: old(self)@.performance + view_seq(r.performance@),
                allocations: old(self)@.allocations + view_seq(r.allocations@),
                allocation_acknowledgements: old(self)@.allocation_acknowledgements + view_seq(
                    r.allocation_acknowledgements@,
                ),
                directives: old(self)@.directives + view_seq(r.directives@),
                directive_acknowledgements: old(self)@.directive_acknowledgements,
                summaries: old(self)@.summaries.push(r.summaries@[0]@),
                last_cycle_at: Some(now),
            }),
    {
        let requests = govern_requests(requests, issuer);
        let allocations = govern_allocations(allocations, issuer);
        let allocation_acks = allocation_acknowledgements(&allocations, now);
        let directives = govern_directives(directives, issuer);
        let no_acks: Vec<DirectiveAcknowledgement> = Vec::new();
        let summary = operational_summary(requests.len(), &allocations, &directives, &no_acks, now);
        assert(view_seq(no_acks@) =~= Seq::<DirectiveAcknowledgementModel>::empty());
        extend_dup(&mut self.resource_requests, &requests);
        extend_dup(&mut self.performance, &performance);
        extend_dup(&mut self.allocations, &allocations);
        extend_dup(&mut self.allocation_acknowledgements, &allocation_acks);
        extend_dup(&mut self.directives, &directives);
        let ghost before = self.summaries@;
        let copy = summary.duplicate();
        self.summaries.push(copy);
        assert(view_seq(self.summaries@) =~= view_seq(before).push(summary@));
        self.last_cycle_at = Some(now);
        let mut summaries: Vec<OperationalSummary> = Vec::new();
        summaries.push(summary);
        System3ControlCycle {
            metadata: ProtocolMetadata::new(),
            resource_requests: requests,
            performance,
            allocations,
            allocation_acknowledgements: allocation_acks,
            directives,
            directive_acknowledgements: Vec::new(),
            summaries,
        }
    }

    /// Records directive acknowledgements reported by units: appends them to the history
    /// with a summary of how many failed and which units answered.
    pub fn record_directive_acknowledgements(
        &mut self,
        acknowledgements: Vec<DirectiveAcknowledgement>,
        now: i64,
    ) -> (r: System3ControlCycle)
        ensures
            fresh_metadata(r.metadata@),
            view_seq(r.directive_acknowledgements@) == view_seq(acknowledgements@),
            r.resource_requests@.len() == 0,
            r.performance@.len() == 0,
            r.allocations@.len() == 0,
            r.allocation_acknowledgements@.len() == 0,
            r.directives@.len() == 0,
            r.summaries@.len() == 1,
            summarizes(r.summaries@[0]@, 0, Seq::empty(), Seq::empty(), view_seq(acknowledgements@), now),
            final(self)@ == (ControlHistory {
                directive_acknowledgements: old(self)@.directive_acknowledgements + view_seq(acknowledgements@),
                summaries: old(self)@.summaries.push(r.summaries@[0]@),
                ..old(self)@
            }),
    {
        let no_allocations: Vec<ResourceAllocation> = Vec::new();
        let no_directives: Vec<OperationalDirective> = Vec::new();
        let summary = operational_summary(0, &no_allocations, &no_directives, &acknowledgements, now);
        assert(view_seq(no_allocations@) =~= Seq::<ResourceAllocationModel>::empty());
        assert(view_seq(no_directives@) =~= Seq::<OperationalDirectiveModel>::empty());
        extend_dup(&mut self.directive_acknowledgements, &acknowledgements);
        let ghost before = self.summaries@;
        let copy = summary.duplicate();
        self.summaries.push(copy);
        assert(view_seq(self.summaries@) =~= view_seq(before).push(summary@));
        let mut summaries: Vec<OperationalSummary> = Vec::new();
        summaries.push(summary);
        System3ControlCycle {
            metadata: ProtocolMetadata::new(),
            resource_requests: Vec::new(),
            performance: Vec::new(),
            allocations: Vec::new(),
            allocation_acknowledgements: Vec::new(),
            directives: Vec::new(),
            directive_acknowledgements: acknowledgements,
            summaries,
        }
    }

    /// The control part of the System 3 snapshot; audit fields are empty.
    pub fn snapshot(&self) -> (r: System3Snapshot)
        ensures
            view_seq(r.resource_requests@) == self@.resource_requests,
            view_seq(r.performance@) == self@.performance,
            view_seq(r.allocations@) == self@.allocations,
            view_seq(r.allocation_acknowledgements@) == self@.allocation_acknowledgements,
            view_seq(r.directives@) == self@.directives,
            view_seq(r.directive_acknowledgements@) == self@.directive_acknowledgements,
            view_seq(r.summaries@) == self@.summaries,
            r.audit_responses@.len() == 0,
            r.last_control_cycle_at == self@.last_cycle_at,
            r.last_audit_at is None,
    {
        System3Snapshot {
            resource_requests: crate::dup::dup_vec(&self.resource_requests),
            performance: crate::dup::dup_vec(&self.performance),
            allocations: crate::dup::dup_vec(&self.allocations),
            allocation_acknowledgements: crate::dup::dup_vec(&self.allocation_acknowledgements),
            directives: crate::dup::dup_vec(&self.directives),
            directive_acknowledgements: crate::dup::dup_vec(&self.directive_acknowledgements),
            summaries: crate::dup::dup_vec(&self.summaries),
            audit_responses: Vec::new(),
            last_control_cycle_at: self.last_cycle_at,
            last_audit_at: None,
        }
    }
}

/// The refusal of an audit request that was not approved.
pub open spec fn unauthorized_audit(e: FrameworkError, audit_id: Seq<char>) -> bool {
    e matches FrameworkError::InvalidProtocol { reason } && reason@ == "audit request is not authorized: "@
        + audit_id
}

/// Admits an audit request: an unapproved request is refused; an approved one names the issuer as its source and gets
/// System 3*'s authority under audit scope.
pub fn authorize_audit(request: System3AuditRequest, issuer: &VsmAddress) -> (r: Result<System3AuditRequest, FrameworkError>)
    ensures
        !request.authorization.approved ==> (r matches Err(e) && unauthorized_audit(e, request.audit_id@)),
        request.authorization.approved ==> (r matches Ok(q) && {
            &&& q.metadata@ == sourced(request.metadata@, issuer@)
            &&& q.audit_id == request.audit_id
            &&& q.scope == request.scope
            &&& q.boundary == request.boundary
            &&& q.requested_at == request.requested_at
            &&& q.authorization.approved
            &&& q.authorization.purpose == request.authorization.purpose
            &&& q.authorization.authority@ == authorized(request.authorization.authority@, issuer@, AuthorityScope::Audit)
        }),
{
    if !request.authorization.approved {
        return Err(
            FrameworkError::InvalidProtocol { reason: concat2("audit request is not authorized: ", request.audit_id.as_str()) },
        );
    }
    let mut request = request;
    set_source_address(&mut request.metadata, issuer);
    ensure_authority(&mut request.authorization.authority, issuer, &AuthorityScope::Audit);
    Ok(request)
}

/// A finding as System 3* reports it: naming `issuer` as its source.
pub open spec fn audited_finding(f: AuditFindingModel, issuer: VsmAddressModel) -> AuditFindingModel {
    AuditFindingModel { metadata: sourced(f.metadata, issuer), ..f }
}

/// A remediation as System 3* reports it: naming `issuer` as its source.
pub open spec fn audited_remediation(m: RemediationActionModel, issuer: VsmAddressModel) -> RemediationActionModel {
    RemediationActionModel { metadata: sourced(m.metadata, issuer), ..m }
}

/// An audit response as System 3* records it: it, its findings and its remediations
/// name `issuer` as their source.
pub open spec fn audited_response(r: AuditResponseModel, issuer: VsmAddressModel) -> AuditResponseModel {
    AuditResponseModel {
        metadata: sourced(r.metadata, issuer),
        findings: r.findings.map_values(|f: AuditFindingModel| audited_finding(f, issuer)),
        remediations: r.remediations.map_values(|m: RemediationActionModel| audited_remediation(m, issuer)),
        ..r
    }
}

fn stamp_findings(findings: Vec<AuditFinding>, issuer: &VsmAddress) -> (r: Vec<AuditFinding>)
    ensures
        view_seq(r@) == view_seq(findings@).map_values(|f: AuditFindingModel| audited_finding(f, issuer@)),
{
    let mut v = findings;
    let n = v.len();
    let mut i: usize = 0;
    while i < n
        invariant
            n == v@.len(),
            n == findings@.len(),
            i <= n,
            forall|k: int| 0 <= k < i ==> #[trigger] v@[k]@ == audited_finding(findings@[k]@, issuer@),
            forall|k: int| i <= k < n ==> #[trigger] v@[k]@ == findings@[k]@,
        decreases n - i,
    {
        let mut x = v[i].duplicate();
        set_source_address(&mut x.metadata, issuer);
        v.set(i, x);
        i = i + 1;
    }
    assert(view_seq(v@) =~= view_seq(findings@).map_values(|f: AuditFindingModel| audited_finding(f, issuer@)));
    v
}

fn stamp_remediations(remediations: Vec<RemediationAction>, issuer: &VsmAddress) -> (r: Vec<RemediationAction>)
    ensures
        view_seq(r@) == view_seq(remediations@).map_values(
            |m: RemediationActionModel| audited_remediation(m, issuer@),
        ),
{
    let mut v = remediations;
    let n = v.len();
    let mut i: usize = 0;
    while i < n
        invariant
            n == v@.len(),
            n == remediations@.len(),
            i <= n,
            forall|k: int| 0 <= k < i ==> #[trigger] v@[k]@ == audited_remediation(remediations@[k]@, issuer@),
            forall|k: int| i <= k < n ==> #[trigger] v@[k]@ == remediations@[k]@,
        decreases n - i,
    {
        let mut x = v[i].duplicate();
        set_source_address(&mut x.metadata, issuer);
        v.set(i, x);
        i = i + 1;
    }
    assert(view_seq(v@) =~= view_seq(remediations@).map_values(
        |m: RemediationActionModel| audited_remediation(m, issuer@),
    ));
    v
}

/// System 3*'s audit history.
pub struct AuditState {
    responses: Vec<AuditResponse>,
    last_audit_at: Option<i64>,
}

impl AuditState {
    /// Audit responses in the order they completed.
    pub closed spec fn responses(&self) -> Seq<AuditResponseModel> {
        view_seq(self.responses@)
    }

    /// When the last audit completed.
    pub closed spec fn last_audit_at(&self) -> Option<i64> {
        self.last_audit_at
    }

    /// An empty audit history.
    pub fn new() -> (r: Self)
        ensures
            r.responses().len() == 0,
            r.last_audit_at() is None,
    {
        AuditState { responses: Vec::new(), last_audit_at: None }
    }

    /// Records the auditor's response to an admitted request, with the response, its
    /// findings and its remediations naming `issuer` (System 3* of this runtime) as their
    /// source, and returns it.
    pub fn complete_audit(&mut self, response: AuditResponse, issuer: &VsmAddress, now: i64) -> (r: AuditResponse)
        ensures
            r@ == audited_response(response@, issuer@),
            final(self).responses() == old(self).responses().push(r@),
            final(self).last_audit_at() == Some(now),
    {
        let AuditResponse { metadata, audit_id, findings, remediations, completed_at } = response;
        let mut metadata = metadata;
        set_source_address(&mut metadata, issuer);
        let findings = stamp_findings(findings, issuer);
        let remediations = stamp_remediations(remediations, issuer);
        let response = AuditResponse { metadata, audit_id, findings, remediations, completed_at };
        let ghost before = self.responses@;
        self.responses.push(response.duplicate());
        assert(view_seq(self.responses@) =~= view_seq(before).push(response@));
        self.last_audit_at = Some(now);
        response
    }

    /// Completes a control snapshot with the audit history.
    pub fn fill_snapshot(&self, snapshot: System3Snapshot) -> (r: System3Snapshot)
        ensures
            view_seq(r.audit_responses@) == self.responses(),
            r.last_audit_at == self.last_audit_at(),
            r.resource_requests@ == snapshot.resource_requests@,
            r.performance@ == snapshot.performance@,
            r.allocations@ == snapshot.allocations@,
            r.allocation_acknowledgements@ == snapshot.allocation_acknowledgements@,
            r.directives@ == snapshot.directives@,
            r.directive_acknowledgements@ == snapshot.directive_acknowledgements@,
            r.summaries@ == snapshot.summaries@,
            r.last_control_cycle_at == snapshot.last_control_cycle_at,
    {
        System3Snapshot {
            audit_responses: crate::dup::dup_vec(&self.responses),
            last_audit_at: self.last_audit_at,
            ..snapshot
        }
    }
}

/// The name of a System 3 actor: `runtime:path:System3:actor`.
pub fn system3_actor_name(runtime_id: &RuntimeId, recursion_path: &RecursionPath, actor: &str) -> (r: String)
    ensures
        r@ == runtime_id@ + ":"@ + path_label(recursion_path@) + ":System3:"@ + actor@,
{
    let mut out = runtime_id.as_str().to_owned();
    out.append(":");
    let path = recursion_path.label();
    out.append(path.as_str());
    out.append(":System3:");
    out.append(actor);
    out
}

} // verus!

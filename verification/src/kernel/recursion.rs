//! The parent side of operational recursion: registered child runtimes and the
//! record of what crossed the boundary.
//!
//! The recursion transducer role decides at the boundary and the child runtimes
//! run in the actor layer; their decisions and results are handed to this
//! registry, which enforces the boundary and keeps the record.

use vstd::prelude::*;
use crate::protocol::envelope::{child_metadata, child_of, fresh_metadata, ProtocolMetadata};

use crate::dup::{dup_vec, view_seq, Duplicate};
use crate::error::FrameworkError;
use crate::kernel::system1::ResourceShortageRequest;
use crate::protocol::algedonic::AlgedonicSignalRecord;
use crate::protocol::recursion::{
    ChildRuntimeDescriptor, ChildRuntimeDescriptorModel, ChildRuntimeSnapshot, ChildRuntimeSnapshotModel,
    ChildRuntimeStatus, RecursionAlgedonicEscalation, RecursionAlgedonicEscalationModel,
    RecursionBoundaryDecision, RecursionIntelligenceSummary, RecursionIntelligenceSummaryModel, RecursionPolicyDirective,
    RecursionPolicyDirectiveModel, RecursionResourceEscalation, RecursionResourceEscalationModel,
    RecursionSnapshot,
};
use crate::protocol::system3::{OperationalDirective, ResourceRequest};
use crate::protocol::system5::{dup_opt, opt_view};
use crate::support::fresh_uuid;
use crate::text::concat2;

verus! {

/// The refusal of an operation the boundary denied.
pub open spec fn denied(e: FrameworkError, reason: Seq<char>) -> bool {
    e matches FrameworkError::InvalidProtocol { reason: r } && r@ == "recursion boundary denied operation: "@
        + reason
}

/// Turns a boundary decision into a result: allowed is `Ok`, a denial is refused with
/// its reason.
pub fn require_allowed(decision: &RecursionBoundaryDecision) -> (r: Result<(), FrameworkError>)
    ensures
        decision is Allow <==> r is Ok,
        decision matches RecursionBoundaryDecision::Deny { reason } ==> (r matches Err(e) && denied(e, reason@)),
{
    match decision {
        RecursionBoundaryDecision::Allow => Ok(()),
        RecursionBoundaryDecision::Deny { reason } => Err(
            FrameworkError::InvalidProtocol { reason: concat2("recursion boundary denied operation: ", reason.as_str()) },
        ),
    }
}

/// A registered child runtime.
pub struct ChildEntry {
    pub descriptor: ChildRuntimeDescriptor,
    pub status: ChildRuntimeStatus,
    pub registered_units: usize,
}

impl View for ChildEntry {
    type V = ChildRuntimeSnapshotModel;

    open spec fn view(&self) -> ChildRuntimeSnapshotModel {
        ChildRuntimeSnapshotModel {
            descriptor: self.descriptor@,
            status: self.status,
            registered_units: self.registered_units,
        }
    }
}

impl Duplicate for ChildEntry {
    fn duplicate(&self) -> (r: Self) {
        ChildEntry {
            descriptor: self.descriptor.duplicate(),
            status: self.status,
            registered_units: self.registered_units,
        }
    }
}

/// No two children share an ID.
pub open spec fn unique_children(c: Seq<ChildRuntimeSnapshotModel>) -> bool {
    forall|i: int, j: int|
        0 <= i < c.len() && 0 <= j < c.len() && i != j ==> c[i].descriptor.child_id != c[j].descriptor.child_id
}

/// Some child has this ID.
pub open spec fn has_child(c: Seq<ChildRuntimeSnapshotModel>, id: Seq<char>) -> bool {
    exists|i: int| 0 <= i < c.len() && c[i].descriptor.child_id == id
}

/// The position of the child with this ID.
pub open spec fn child_index(c: Seq<ChildRuntimeSnapshotModel>, id: Seq<char>) -> int {
    choose|i: int| 0 <= i < c.len() && c[i].descriptor.child_id == id
}

/// The refusal of a child ID that is already registered.
pub open spec fn duplicate_child(e: FrameworkError, id: Seq<char>) -> bool {
    e matches FrameworkError::InvalidProtocol { reason } && reason@ == "child runtime already registered: "@ + id
}

/// The error for a child ID that is not registered.
pub open spec fn unknown_child(e: FrameworkError, id: Seq<char>) -> bool {
    e matches FrameworkError::Unavailable { target } && target@ == "child runtime "@ + id
}

/// The recursion boundary of one runtime.
pub struct RecursionRegistry {
    children: Vec<ChildEntry>,
    resource_escalations: Vec<RecursionResourceEscalation>,
    algedonic_escalations: Vec<RecursionAlgedonicEscalation>,
    policy_directives: Vec<RecursionPolicyDirective>,
    intelligence_summaries: Vec<RecursionIntelligenceSummary>,
    shutdown: bool,
}

impl RecursionRegistry {
    /// Registered children, in registration order.
    pub closed spec fn children(&self) -> Seq<ChildRuntimeSnapshotModel> {
        view_seq(self.children@)
    }

    /// Resource escalations, oldest first.
    pub closed spec fn resource_escalations(&self) -> Seq<RecursionResourceEscalationModel> {
        view_seq(self.resource_escalations@)
    }

    /// Algedonic escalations, oldest first.
    pub closed spec fn algedonic_escalations(&self) -> Seq<RecursionAlgedonicEscalationModel> {
        view_seq(self.algedonic_escalations@)
    }

    /// Transduced policy directives, oldest first.
    pub closed spec fn policy_directives(&self) -> Seq<RecursionPolicyDirectiveModel> {
        view_seq(self.policy_directives@)
    }

    /// Intelligence summaries, oldest first.
    pub closed spec fn intelligence_summaries(&self) -> Seq<RecursionIntelligenceSummaryModel> {
        view_seq(self.intelligence_summaries@)
    }

    /// Whether the boundary has been shut down.
    pub closed spec fn is_shut_down(&self) -> bool {
        self.shutdown
    }

    /// One entry per child.
    pub open spec fn wf(&self) -> bool {
        unique_children(self.children())
    }

    /// An empty, running boundary.
    pub fn new() -> (r: Self)
        ensures
            r.wf(),
            r.children().len() == 0,
            r.resource_escalations().len() == 0,
            r.algedonic_escalations().len() == 0,
            r.policy_directives().len() == 0,
            r.intelligence_summaries().len() == 0,
            !r.is_shut_down(),
    {
        let r = RecursionRegistry {
            children: Vec::new(),
            resource_escalations: Vec::new(),
            algedonic_escalations: Vec::new(),
            policy_directives: Vec::new(),
            intelligence_summaries: Vec::new(),
            shutdown: false,
        };
        assert(r.children() =~= Seq::<ChildRuntimeSnapshotModel>::empty());
        r
    }

    /// Fails with `Shutdown` once the boundary has been shut down.
    pub fn ensure_running(&self) -> (r: Result<(), FrameworkError>)
        ensures
            self.is_shut_down() ==> r == Err::<(), FrameworkError>(FrameworkError::Shutdown),
            !self.is_shut_down() ==> r is Ok,
    {
        if self.shutdown {
            Err(FrameworkError::Shutdown)
        } else {
            Ok(())
        }
    }

    fn find(&self, child_id: &String) -> (r: Option<usize>)
        requires
            self.wf(),
        ensures
            match r {
                Some(i) => i < self.children().len() && child_index(self.children(), child_id@) == i
                    && self.children()[i as int].descriptor.child_id == child_id@,
                None => !has_child(self.children(), child_id@),
            },
    {
        let n = self.children.len();
        let mut i: usize = 0;
        while i < n
            invariant
                n == self.children@.len(),
                i <= n,
                self.wf(),
                forall|j: int| 0 <= j < i ==> self.children()[j].descriptor.child_id != child_id@,
            decreases n - i,
        {
            assert(self.children()[i as int] == self.children@[i as int]@);
            if self.children[i].descriptor.child_id == *child_id {
                proof {
                    assert(has_child(self.children(), child_id@));
                    let c = child_index(self.children(), child_id@);
                    assert(c == i);
                }
                return Some(i);
            }
            i = i + 1;
        }
        None
    }

    /// Checks that a child may be started: the boundary runs, the transducer allowed
    /// the registration and the ID is new.
    pub fn admit_child(&self, descriptor: &ChildRuntimeDescriptor, decision: &RecursionBoundaryDecision) -> (r: Result<
        (),
        FrameworkError,
    >)
        requires
            self.wf(),
        ensures
            self.is_shut_down() ==> r == Err::<(), FrameworkError>(FrameworkError::Shutdown),
            !self.is_shut_down() ==> (decision matches RecursionBoundaryDecision::Deny { reason } ==> (r matches Err(
                e,
            ) && denied(e, reason@))),
            !self.is_shut_down() && decision is Allow && has_child(self.children(), descriptor.child_id@) ==> (
            r matches Err(e) && duplicate_child(e, descriptor.child_id@)),
            r is Ok <==> (!self.is_shut_down() && decision is Allow && !has_child(
                self.children(),
                descriptor.child_id@,
            )),
    {
        match self.ensure_running() {
            Err(e) => return Err(e),
            Ok(()) => {},
        }
        match require_allowed(decision) {
            Err(e) => return Err(e),
            Ok(()) => {},
        }
        if self.find(&descriptor.child_id).is_some() {
            return Err(
                FrameworkError::InvalidProtocol {
                    reason: concat2("child runtime already registered: ", descriptor.child_id.as_str()),
                },
            );
        }
        Ok(())
    }

    /// Registers a started child as running with the units it reported; an ID that was
    /// registered meanwhile is refused.
    pub fn complete_registration(&mut self, descriptor: ChildRuntimeDescriptor, registered_units: usize) -> (r: Result<
        ChildRuntimeSnapshot,
        FrameworkError,
    >)
        requires
            old(self).wf(),
        ensures
            final(self).wf(),
            final(self).is_shut_down() == old(self).is_shut_down(),
            has_child(old(self).children(), descriptor.child_id@) ==> (r matches Err(e) && duplicate_child(
                e,
                descriptor.child_id@,
            )) && final(self).children() == old(self).children(),
            !has_child(old(self).children(), descriptor.child_id@) ==> ({
                let entry = ChildRuntimeSnapshotModel {
                    descriptor: descriptor@,
                    status: ChildRuntimeStatus::Running,
                    registered_units,
                };
                &&& r matches Ok(s) && s@ == entry
                &&& final(self).children() == old(self).children().push(entry)
            }),
    {
        if self.find(&descriptor.child_id).is_some() {
            return Err(
                FrameworkError::InvalidProtocol {
                    reason: concat2("child runtime already registered: ", descriptor.child_id.as_str()),
                },
            );
        }
        let snapshot = ChildRuntimeSnapshot {
            descriptor: descriptor.duplicate(),
            status: ChildRuntimeStatus::Running,
            registered_units,
        };
        let entry = ChildEntry { descriptor, status: ChildRuntimeStatus::Running, registered_units };
        let ghost before = self.children();
        let ghost em = entry@;
        self.children.push(entry);
        assert(self.children() =~= before.push(em));
        Ok(snapshot)
    }

    /// The descriptor of a registered child.
    pub fn child_entry(&self, child_id: &String) -> (r: Result<ChildRuntimeDescriptor, FrameworkError>)
        requires
            self.wf(),
        ensures
            has_child(self.children(), child_id@) ==> (r matches Ok(d) && d@ == self.children()[child_index(
                self.children(),
                child_id@,
            )].descriptor),
            !has_child(self.children(), child_id@) ==> (r matches Err(e) && unknown_child(e, child_id@)),
    {
        match self.find(child_id) {
            Some(i) => {
                assert(self.children()[i as int] == self.children@[i as int]@);
                Ok(self.children[i].descriptor.duplicate())
            },
            None => Err(FrameworkError::Unavailable { target: concat2("child runtime ", child_id.as_str()) }),
        }
    }

    /// Every registered child, in registration order.
    pub fn list_children(&self) -> (r: Vec<ChildRuntimeSnapshot>)
        ensures
            view_seq(r@) == self.children(),
    {
        let mut out: Vec<ChildRuntimeSnapshot> = Vec::new();
        let n = self.children.len();
        let mut i: usize = 0;
        while i < n
            invariant
                n == self.children@.len(),
                i <= n,
                view_seq(out@) == self.children().take(i as int),
            decreases n - i,
        {
            let e = &self.children[i];
            let s = ChildRuntimeSnapshot {
                descriptor: e.descriptor.duplicate(),
                status: e.status,
                registered_units: e.registered_units,
            };
            let ghost before = out@;
            out.push(s);
            assert(view_seq(out@) =~= view_seq(before).push(s@));
            assert(self.children()[i as int] == self.children@[i as int]@);
            assert(view_seq(out@) =~= self.children().take(i + 1));
            i = i + 1;
        }
        assert(self.children().take(n as int) =~= self.children());
        out
    }

    /// Records a child's resource shortage as the transducer translated it; the parent
    /// request is returned only when the boundary allowed it.
    pub fn record_resource_escalation(
        &mut self,
        child_id: &String,
        shortage: ResourceShortageRequest,
        decision: RecursionBoundaryDecision,
        parent_request: ResourceRequest,
        now: i64,
    ) -> (r: Result<ResourceRequest, FrameworkError>)
        requires
            old(self).wf(),
        ensures
            child_of(final(self).resource_escalations().last().metadata, shortage.metadata@),
            final(self).wf(),
            final(self).children() == old(self).children(),
            final(self).resource_escalations().len() == old(self).resource_escalations().len() + 1,
            final(self).resource_escalations().drop_last() == old(self).resource_escalations(),
            ({
                let rec = final(self).resource_escalations().last();
                &&& rec.child_id == child_id@
                &&& rec.shortage == shortage@
                &&& rec.parent_request == parent_request@
                &&& rec.decision == decision
                &&& rec.escalated_at == now
            }),
            decision is Allow ==> (r matches Ok(p) && p@ == parent_request@),
            decision matches RecursionBoundaryDecision::Deny { reason } ==> (r matches Err(e) && denied(e, reason@)),
    {
        let allowed = require_allowed(&decision);
        let id = fresh_uuid();
        let request_copy = parent_request.duplicate();
        let rec = RecursionResourceEscalation {
            metadata: shortage.metadata.child(),
            escalation_id: concat2("recursion-resource-", id.as_str()),
            child_id: child_id.clone(),
            shortage,
            parent_request,
            decision,
            escalated_at: now,
        };
        let ghost before = self.resource_escalations@;
        let ghost rm = rec@;
        self.resource_escalations.push(rec);
        assert(view_seq(self.resource_escalations@) =~= view_seq(before).push(rm));
        match allowed {
            Ok(()) => Ok(request_copy),
            Err(e) => Err(e),
        }
    }

    /// Records a child's algedonic signal as disclosed to the parent; the parent signal
    /// is returned only when the boundary allowed it.
    pub fn record_algedonic_escalation(
        &mut self,
        child_id: &String,
        decision: RecursionBoundaryDecision,
        parent_signal: AlgedonicSignalRecord,
        now: i64,
    ) -> (r: Result<AlgedonicSignalRecord, FrameworkError>)
        requires
            old(self).wf(),
        ensures
            child_of(final(self).algedonic_escalations().last().metadata, parent_signal.metadata@),
            final(self).wf(),
            final(self).children() == old(self).children(),
            final(self).algedonic_escalations().len() == old(self).algedonic_escalations().len() + 1,
            final(self).algedonic_escalations().drop_last() == old(self).algedonic_escalations(),
            ({
                let rec = final(self).algedonic_escalations().last();
                &&& rec.child_id == child_id@
                &&& rec.signal == parent_signal@
                &&& rec.decision == decision
                &&& rec.escalated_at == now
            }),
            decision is Allow ==> (r matches Ok(s) && s@ == parent_signal@),
            decision matches RecursionBoundaryDecision::Deny { reason } ==> (r matches Err(e) && denied(e, reason@)),
    {
        let allowed = require_allowed(&decision);
        let id = fresh_uuid();
        let signal_copy = parent_signal.duplicate();
        let rec = RecursionAlgedonicEscalation {
            metadata: parent_signal.metadata.child(),
            escalation_id: concat2("recursion-algedonic-", id.as_str()),
            child_id: child_id.clone(),
            signal: parent_signal,
            decision,
            escalated_at: now,
        };
        let ghost before = self.algedonic_escalations@;
        let ghost rm = rec@;
        self.algedonic_escalations.push(rec);
        assert(view_seq(self.algedonic_escalations@) =~= view_seq(before).push(rm));
        match allowed {
            Ok(()) => Ok(signal_copy),
            Err(e) => Err(e),
        }
    }

    /// Records a parent directive as the transducer translated it for a child; the child
    /// directive is passed on only when the boundary allowed it.
    pub fn record_policy_directive(
        &mut self,
        child_id: &String,
        parent_directive: OperationalDirective,
        decision: RecursionBoundaryDecision,
        child_directive: Option<OperationalDirective>,
        now: i64,
    ) -> (r: Option<OperationalDirective>)
        requires
            old(self).wf(),
        ensures
            child_of(final(self).policy_directives().last().metadata, parent_directive.metadata@),
            final(self).wf(),
            final(self).children() == old(self).children(),
            final(self).policy_directives().len() == old(self).policy_directives().len() + 1,
            final(self).policy_directives().drop_last() == old(self).policy_directives(),
            ({
                let rec = final(self).policy_directives().last();
                &&& rec.child_id == child_id@
                &&& rec.parent_directive == parent_directive@
                &&& rec.child_directive == opt_view(child_directive)
                &&& rec.decision == decision
                &&& rec.transduced_at == now
            }),
            decision is Allow ==> opt_view(r) == opt_view(child_directive),
            decision is Deny ==> r is None,
    {
        let allowed = decision.is_allowed();
        let copy = dup_opt(&child_directive);
        let id = fresh_uuid();
        let rec = RecursionPolicyDirective {
            metadata: parent_directive.metadata.child(),
            directive_id: concat2("recursion-policy-", id.as_str()),
            child_id: child_id.clone(),
            parent_directive,
            child_directive,
            decision,
            transduced_at: now,
        };
        let ghost before = self.policy_directives@;
        let ghost rm = rec@;
        self.policy_directives.push(rec);
        assert(view_seq(self.policy_directives@) =~= view_seq(before).push(rm));
        if allowed {
            copy
        } else {
            None
        }
    }

    /// Records an intelligence summary of a registered child and returns it.
    pub fn record_intelligence_summary(&mut self, summary: RecursionIntelligenceSummary) -> (r: Result<
        RecursionIntelligenceSummary,
        FrameworkError,
    >)
        requires
            old(self).wf(),
        ensures
            final(self).wf(),
            final(self).children() == old(self).children(),
            old(self).is_shut_down() ==> r == Err::<RecursionIntelligenceSummary, FrameworkError>(
                FrameworkError::Shutdown,
            ) && final(self).intelligence_summaries() == old(self).intelligence_summaries(),
            !old(self).is_shut_down() && !has_child(old(self).children(), summary.child_id@) ==> (r matches Err(e)
                && unknown_child(e, summary.child_id@)) && final(self).intelligence_summaries()
                == old(self).intelligence_summaries(),
            !old(self).is_shut_down() && has_child(old(self).children(), summary.child_id@) ==> (r matches Ok(s)
                && s@ == summary@) && final(self).intelligence_summaries() == old(self).intelligence_summaries().push(
                summary@,
            ),
    {
        match self.ensure_running() {
            Err(e) => return Err(e),
            Ok(()) => {},
        }
        match self.child_entry(&summary.child_id) {
            Err(e) => return Err(e),
            Ok(_) => {},
        }
        let ghost before = self.intelligence_summaries@;
        self.intelligence_summaries.push(summary.duplicate());
        assert(view_seq(self.intelligence_summaries@) =~= view_seq(before).push(summary@));
        Ok(summary)
    }

    /// Shuts the boundary down once: the first call marks every child stopped and returns
    /// the IDs of the children to shut down, in registration order; later calls return
    /// nothing.
    pub fn shutdown(&mut self) -> (r: Vec<String>)
        requires
            old(self).wf(),
        ensures
            final(self).wf(),
            final(self).is_shut_down(),
            old(self).is_shut_down() ==> r@.len() == 0 && final(self).children() == old(self).children(),
            !old(self).is_shut_down() ==> {
                &&& r@.len() == old(self).children().len()
                &&& forall|i: int| 0 <= i < r@.len() ==> #[trigger] r@[i]@ == old(self).children()[i].descriptor.child_id
                &&& final(self).children() == old(self).children().map_values(
                    |c: ChildRuntimeSnapshotModel| ChildRuntimeSnapshotModel { status: ChildRuntimeStatus::Stopped, ..c },
                )
            },
    {
        if self.shutdown {
            return Vec::new();
        }
        self.shutdown = true;
        let ghost start = self.children();
        let mut ids: Vec<String> = Vec::new();
        let n = self.children.len();
        let mut i: usize = 0;
        while i < n
            invariant
                n == self.children@.len(),
                start.len() == n,
                i <= n,
                self.shutdown,
                ids@.len() == i,
                forall|k: int| 0 <= k < i ==> #[trigger] ids@[k]@ == start[k].descriptor.child_id,
                forall|k: int|
                    0 <= k < i ==> #[trigger] self.children()[k] == (ChildRuntimeSnapshotModel {
                        status: ChildRuntimeStatus::Stopped,
                        ..start[k]
                    }),
                forall|k: int| i <= k < n ==> #[trigger] self.children()[k] == start[k],
            decreases n - i,
        {
            assert(self.children()[i as int] == self.children@[i as int]@);
            let mut e = self.children[i].duplicate();
            ids.push(e.descriptor.child_id.clone());
            e.status = ChildRuntimeStatus::Stopped;
            let ghost before = self.children();
            let ghost em = e@;
            self.children.set(i, e);
            assert(self.children() =~= before.update(i as int, em));
            i = i + 1;
        }
        assert(self.children() =~= start.map_values(
            |c: ChildRuntimeSnapshotModel| ChildRuntimeSnapshotModel { status: ChildRuntimeStatus::Stopped, ..c },
        ));
        ids
    }

    /// A snapshot of the boundary taken at `now`.
    pub fn snapshot(&self, now: i64) -> (r: RecursionSnapshot)
        ensures
            view_seq(r.children@) == self.children(),
            view_seq(r.resource_escalations@) == self.resource_escalations(),
            view_seq(r.algedonic_escalations@) == self.algedonic_escalations(),
            view_seq(r.policy_directives@) == self.policy_directives(),
            view_seq(r.intelligence_summaries@) == self.intelligence_summaries(),
            r.captured_at == now,
    {
        RecursionSnapshot {
            children: self.list_children(),
            resource_escalations: dup_vec(&self.resource_escalations),
            algedonic_escalations: dup_vec(&self.algedonic_escalations),
            policy_directives: dup_vec(&self.policy_directives),
            intelligence_summaries: dup_vec(&self.intelligence_summaries),
            captured_at: now,
        }
    }
}

} // verus!

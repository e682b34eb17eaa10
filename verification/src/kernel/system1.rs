//! System 1 unit registry, admission control and work timing.
//!
//! Instants are epoch milliseconds and durations are milliseconds.

use vstd::prelude::*;

use crate::dup::{view_seq, Duplicate};
use crate::error::{framework_message, FrameworkError};
use crate::protocol::address::{path_label, RecursionPath, RuntimeId};
use crate::protocol::system1::{
    below_limit, CapacitySnapshot, UnitDescriptor, UnitDescriptorModel, WorkDisposition, WorkOptions,
};
use crate::protocol::system2::{
    CoordinationAckStatus, CoordinationAcknowledgement, CoordinationAcknowledgementModel,
    CoordinationIntervention,
};
use crate::protocol::snapshot::{stable_key_text, SnapshotKey, SnapshotVersion};
use crate::text::{concat2, debug_quoted, debug_text, decimal, texts, u64_text};

use crate::protocol::envelope::{child_metadata, child_of, fresh_metadata, ProtocolMetadata, ProtocolMetadataModel};
verus! {

/// Per-unit admission limits imposed by the runtime.
#[derive(Debug, Clone, Copy, PartialEq, Eq, Structural)]
pub struct UnitAdmissionLimits {
    pub max_in_flight: Option<usize>,
}

/// Everything the registry needs to admit a unit.
pub struct UnitRegistration {
    pub descriptor: UnitDescriptor,
    pub admission: UnitAdmissionLimits,
    pub save_on_unregister: bool,
}

/// One registered unit and its admission state.
pub struct UnitEntry {
    pub descriptor: UnitDescriptor,
    pub admission: UnitAdmissionLimits,
    pub save_on_unregister: bool,
    pub in_flight: usize,
    pub draining: bool,
}

/// The plain-value view of `UnitEntry`.
pub struct UnitEntryModel {
    pub descriptor: UnitDescriptorModel,
    pub admission: UnitAdmissionLimits,
    pub save_on_unregister: bool,
    pub in_flight: usize,
    pub draining: bool,
}

impl View for UnitEntry {
    type V = UnitEntryModel;

    open spec fn view(&self) -> UnitEntryModel {
        UnitEntryModel {
            descriptor: self.descriptor@,
            admission: self.admission,
            save_on_unregister: self.save_on_unregister,
            in_flight: self.in_flight,
            draining: self.draining,
        }
    }
}

impl Duplicate for UnitEntry {
    fn duplicate(&self) -> (r: Self) {
        UnitEntry {
            descriptor: self.descriptor.duplicate(),
            admission: self.admission,
            save_on_unregister: self.save_on_unregister,
            in_flight: self.in_flight,
            draining: self.draining,
        }
    }
}

/// A registered unit as reported by `list_units`.
pub struct RegisteredUnit {
    pub descriptor: UnitDescriptor,
    pub in_flight: usize,
    pub admission: UnitAdmissionLimits,
    pub draining: bool,
}

/// A unit that advertises the required capabilities, with its merged capacity.
pub struct UnitCandidate {
    pub descriptor: UnitDescriptor,
    pub capacity: CapacitySnapshot,
}

/// The plain-value view of `UnitCandidate`.
pub struct UnitCandidateModel {
    pub descriptor: UnitDescriptorModel,
    pub capacity: CapacitySnapshot,
}

impl View for UnitCandidate {
    type V = UnitCandidateModel;

    open spec fn view(&self) -> UnitCandidateModel {
        UnitCandidateModel { descriptor: self.descriptor@, capacity: self.capacity }
    }
}

/// Units that advertise the required capabilities, and those of them that accept work.
pub struct EligibleUnits {
    pub static_eligible_count: usize,
    pub accepting_candidates: Vec<UnitCandidate>,
}

/// Request emitted when no registered unit advertises every required capability.
pub struct ResourceShortageRequest {
    pub metadata: ProtocolMetadata,
    pub required_capabilities: Vec<String>,
    pub work_label: Option<String>,
    pub reason: String,
}

/// The plain-value view of `ResourceShortage`.
pub struct ResourceShortageModel {
    pub metadata: ProtocolMetadataModel,
    pub required_capabilities: Seq<Seq<char>>,
    pub work_label: Option<Seq<char>>,
    pub reason: Seq<char>,
}

impl View for ResourceShortageRequest {
    type V = ResourceShortageModel;

    open spec fn view(&self) -> ResourceShortageModel {
        ResourceShortageModel {
            metadata: self.metadata@,
            required_capabilities: texts(self.required_capabilities@),
            work_label: crate::protocol::system2::opt_text(self.work_label),
            reason: self.reason@,
        }
    }
}

impl Duplicate for ResourceShortageRequest {
    fn duplicate(&self) -> (r: Self) {
        let caps = self.required_capabilities.clone();
        assert(texts(caps@) =~= texts(self.required_capabilities@));
        ResourceShortageRequest {
            metadata: self.metadata.duplicate(),
            required_capabilities: caps,
            work_label: crate::protocol::system2::copy_opt(&self.work_label),
            reason: self.reason.clone(),
        }
    }
}

/// Generic performance observation emitted after a work attempt.
pub struct PerformanceObservation {
    pub metadata: ProtocolMetadata,
    pub unit_id: String,
    pub disposition: WorkDisposition,
    pub elapsed_ms: Option<u64>,
}

/// The plain-value view of `PerformanceObservation`.
pub struct PerformanceObservationModel {
    pub metadata: ProtocolMetadataModel,
    pub unit_id: Seq<char>,
    pub disposition: WorkDisposition,
    pub elapsed_ms: Option<u64>,
}

impl View for PerformanceObservation {
    type V = PerformanceObservationModel;

    open spec fn view(&self) -> PerformanceObservationModel {
        PerformanceObservationModel {
            metadata: self.metadata@,
            unit_id: self.unit_id@,
            disposition: self.disposition,
            elapsed_ms: self.elapsed_ms,
        }
    }
}

impl Duplicate for PerformanceObservation {
    fn duplicate(&self) -> (r: Self) {
        PerformanceObservation {
            metadata: self.metadata.duplicate(),
            unit_id: self.unit_id.clone(),
            disposition: self.disposition,
            elapsed_ms: self.elapsed_ms,
        }
    }
}

impl PerformanceObservation {
    /// The observation recorded after a work attempt on a unit: it carries the work
    /// request's metadata and the work model's classification of the attempt, or
    /// `FrameworkFailed` when the work model could not classify it; its duration is not
    /// measured.
    pub fn for_attempt(request_metadata: &ProtocolMetadata, unit_id: String, classified: Option<WorkDisposition>) -> (r: Self)
        ensures
            r.metadata@ == request_metadata@,
            r.unit_id == unit_id,
            r.disposition == observed_disposition_spec(classified),
            r.elapsed_ms is None,
    {
        PerformanceObservation {
            metadata: request_metadata.duplicate(),
            unit_id,
            disposition: observed_disposition(classified),
            elapsed_ms: None,
        }
    }
}

/// No two entries are for the same unit.
pub open spec fn unique_unit_ids(units: Seq<UnitEntryModel>) -> bool {
    forall|i: int, j: int|
        0 <= i < units.len() && 0 <= j < units.len() && i != j ==> units[i].descriptor.unit_id
            != units[j].descriptor.unit_id
}

/// Some entry is for this unit.
pub open spec fn has_unit(units: Seq<UnitEntryModel>, unit_id: Seq<char>) -> bool {
    exists|i: int| 0 <= i < units.len() && units[i].descriptor.unit_id == unit_id
}

/// The position of the unit's entry, when present.
pub open spec fn unit_index(units: Seq<UnitEntryModel>, unit_id: Seq<char>) -> int {
    choose|i: int| 0 <= i < units.len() && units[i].descriptor.unit_id == unit_id
}

/// The descriptor advertises every required capability.
pub open spec fn advertises_all(descriptor: UnitDescriptorModel, required: Seq<Seq<char>>) -> bool {
    forall|j: int| 0 <= j < required.len() ==> #[trigger] descriptor.advertised().contains(required[j])
}

/// The limit that applies to a unit: the runtime's, else the one the unit reported.
pub open spec fn effective_limit(admission: UnitAdmissionLimits, reported: Option<usize>) -> Option<usize> {
    match admission.max_in_flight {
        Some(m) => Some(m),
        None => reported,
    }
}

/// A unit's reported capacity merged with the registry's admission state.
pub open spec fn merged_capacity(entry: UnitEntryModel, reported: CapacitySnapshot) -> CapacitySnapshot {
    let max = effective_limit(entry.admission, reported.max_in_flight);
    CapacitySnapshot {
        observed_at: reported.observed_at,
        in_flight: entry.in_flight,
        max_in_flight: max,
        accepting_work: reported.accepting_work && !entry.draining && below_limit(entry.in_flight, max),
    }
}

/// Accepting candidates among the first `n` units, in registry order.
pub open spec fn candidates_upto(
    units: Seq<UnitEntryModel>,
    reported: Seq<CapacitySnapshot>,
    required: Seq<Seq<char>>,
    n: int,
) -> Seq<UnitCandidateModel>
    decreases n,
{
    if n <= 0 {
        Seq::empty()
    } else {
        let prev = candidates_upto(units, reported, required, n - 1);
        let cap = merged_capacity(units[n - 1], reported[n - 1]);
        if advertises_all(units[n - 1].descriptor, required) && cap.accepting_work {
            prev.push(UnitCandidateModel { descriptor: units[n - 1].descriptor, capacity: cap })
        } else {
            prev
        }
    }
}

/// How many of the first `n` units advertise every required capability.
pub open spec fn advertisers_upto(units: Seq<UnitEntryModel>, required: Seq<Seq<char>>, n: int) -> nat
    decreases n,
{
    if n <= 0 {
        0
    } else {
        advertisers_upto(units, required, n - 1) + if advertises_all(units[n - 1].descriptor, required) {
            1nat
        } else {
            0nat
        }
    }
}

/// A slot can be reserved on the unit: it is registered, not draining and below its
/// admission limit.
pub open spec fn can_reserve(units: Seq<UnitEntryModel>, unit_id: Seq<char>) -> bool {
    let k = unit_index(units, unit_id);
    has_unit(units, unit_id) && !units[k].draining && below_limit(units[k].in_flight, units[k].admission.max_in_flight)
}

/// The units after a reservation on `unit_id`: one more piece of work in flight on it
/// when a slot can be reserved, unchanged otherwise.
pub open spec fn after_reserve(units: Seq<UnitEntryModel>, unit_id: Seq<char>) -> Seq<UnitEntryModel> {
    let k = unit_index(units, unit_id);
    if can_reserve(units, unit_id) {
        units.update(k, UnitEntryModel { in_flight: (units[k].in_flight + 1) as usize, ..units[k] })
    } else {
        units
    }
}

/// The units after a release on `unit_id`: one piece of work fewer in flight on it,
/// never below zero; unchanged when the unit is not registered.
pub open spec fn after_release(units: Seq<UnitEntryModel>, unit_id: Seq<char>) -> Seq<UnitEntryModel> {
    let k = unit_index(units, unit_id);
    if has_unit(units, unit_id) {
        units.update(
            k,
            UnitEntryModel {
                in_flight: if units[k].in_flight > 0 { (units[k].in_flight - 1) as usize } else { 0 },
                ..units[k]
            },
        )
    } else {
        units
    }
}

/// The runtime's admission limit wins over what a unit reports: when the registry has a
/// limit for the unit, the merged capacity carries that limit whatever the unit reported,
/// and a unit with as much work in flight as its limit does not accept more; without a
/// registry limit, the unit's own report applies.
pub proof fn lemma_admission_limit_wins(entry: UnitEntryModel, reported: CapacitySnapshot)
    ensures
        entry.admission.max_in_flight matches Some(m) ==> merged_capacity(entry, reported).max_in_flight == Some(m),
        entry.admission.max_in_flight matches Some(m) ==> effective_limit(entry.admission, reported.max_in_flight)
            == Some(m),
        entry.admission.max_in_flight matches Some(m) ==> (entry.in_flight >= m ==> !merged_capacity(
            entry,
            reported,
        ).accepting_work),
        entry.admission.max_in_flight is None ==> merged_capacity(entry, reported).max_in_flight
            == reported.max_in_flight,
        merged_capacity(entry, reported).accepting_work <==> (reported.accepting_work && !entry.draining && match merged_capacity(
            entry,
            reported,
        ).max_in_flight {
            Some(m) => entry.in_flight < m,
            None => true,
        }),
        merged_capacity(entry, reported).in_flight == entry.in_flight,
        effective_limit(entry.admission, reported.max_in_flight) == merged_capacity(entry, reported).max_in_flight,
{
}

/// A candidate stands for this registry entry within its admission: the entry's unit,
/// with the entry's work in flight, advertising every required capability, not draining,
/// and below the registry's limit for it, which the candidate carries, when there is one.
pub open spec fn offered_within_admission(
    c: UnitCandidateModel,
    entry: UnitEntryModel,
    required: Seq<Seq<char>>,
) -> bool {
    &&& c.descriptor == entry.descriptor
    &&& c.capacity.in_flight == entry.in_flight
    &&& !entry.draining
    &&& advertises_all(entry.descriptor, required)
    &&& (entry.admission.max_in_flight matches Some(m) ==> entry.in_flight < m && c.capacity.max_in_flight == Some(m))
}

/// No unit is offered beyond its admission limit: every accepting candidate stands for
/// one of the registry's units within that unit's admission.
pub proof fn lemma_candidates_within_admission(
    units: Seq<UnitEntryModel>,
    reported: Seq<CapacitySnapshot>,
    required: Seq<Seq<char>>,
    n: int,
)
    requires
        0 <= n <= units.len(),
        n <= reported.len(),
    ensures
        forall|i: int|
            0 <= i < candidates_upto(units, reported, required, n).len() ==> exists|k: int|
                0 <= k < n && offered_within_admission(
                    #[trigger] candidates_upto(units, reported, required, n)[i],
                    units[k],
                    required,
                ),
    decreases n,
{
    if n > 0 {
        lemma_candidates_within_admission(units, reported, required, n - 1);
        let prev = candidates_upto(units, reported, required, n - 1);
        let all = candidates_upto(units, reported, required, n);
        assert forall|i: int| 0 <= i < all.len() implies exists|k: int|
            0 <= k < n && offered_within_admission(#[trigger] all[i], units[k], required) by {
            if i < prev.len() {
                assert(all[i] == prev[i]);
                let k = choose|k: int| 0 <= k < n - 1 && offered_within_admission(prev[i], units[k], required);
                assert(offered_within_admission(all[i], units[k], required));
            } else {
                assert(offered_within_admission(all[i], units[n - 1], required));
            }
        }
    }
}

/// Releasing what was just reserved gives back the registry as it was.
pub proof fn lemma_reserve_then_release(units: Seq<UnitEntryModel>, unit_id: Seq<char>)
    requires
        unique_unit_ids(units),
        forall|i: int| 0 <= i < units.len() ==> units[i].in_flight < usize::MAX,
        can_reserve(units, unit_id),
    ensures
        after_release(after_reserve(units, unit_id), unit_id) == units,
{
    let k = unit_index(units, unit_id);
    let reserved = after_reserve(units, unit_id);
    assert(reserved[k].descriptor.unit_id == unit_id);
    assert(has_unit(reserved, unit_id));
    let k2 = unit_index(reserved, unit_id);
    assert(reserved[k2].descriptor.unit_id == unit_id);
    assert(k2 == k);
    assert(after_release(reserved, unit_id) =~= units);
}

/// Unregistering a unit that was just registered gives back the registry as it was:
/// the new unit is found at the end and removing it leaves the earlier units.
pub proof fn lemma_register_then_unregister(units: Seq<UnitEntryModel>, entry: UnitEntryModel)
    requires
        unique_unit_ids(units),
        !has_unit(units, entry.descriptor.unit_id),
    ensures
        unique_unit_ids(units.push(entry)),
        has_unit(units.push(entry), entry.descriptor.unit_id),
        unit_index(units.push(entry), entry.descriptor.unit_id) == units.len(),
        units.push(entry).remove(units.len() as int) == units,
{
    let grown = units.push(entry);
    let id = entry.descriptor.unit_id;
    assert(grown[units.len() as int].descriptor.unit_id == id);
    assert(has_unit(grown, id));
    let k = unit_index(grown, id);
    if k < units.len() {
        assert(units[k].descriptor.unit_id == id);
    }
    assert(grown.remove(units.len() as int) =~= units);
}

/// Error text for a unit that is not registered: `system1.unit "<id>"`.
pub open spec fn missing_unit_target(unit_id: Seq<char>) -> Seq<char> {
    "system1.unit "@ + debug_quoted(unit_id)
}

/// The unit is not registered.
pub open spec fn unit_unavailable(e: FrameworkError, unit_id: Seq<char>) -> bool {
    e matches FrameworkError::Unavailable { target } && target@ == missing_unit_target(unit_id)
}

/// Builds the error for a unit that is not registered.
pub fn missing_unit(unit_id: &String) -> (e: FrameworkError)
    ensures
        unit_unavailable(e, unit_id@),
{
    let quoted = debug_text(unit_id.as_str());
    FrameworkError::Unavailable { target: concat2("system1.unit ", quoted.as_str()) }
}

/// The registry of operational units owned by one System 1 runtime.
pub struct UnitRegistry {
    units: Vec<UnitEntry>,
    max_registered_units: Option<usize>,
    shutdown: bool,
}

impl UnitRegistry {
    /// Registered units in registration order.
    pub closed spec fn units(&self) -> Seq<UnitEntryModel> {
        view_seq(self.units@)
    }

    /// Maximum number of registered units, if bounded.
    pub closed spec fn max_units(&self) -> Option<usize> {
        self.max_registered_units
    }

    /// Whether the registry has been shut down.
    pub closed spec fn is_shut_down(&self) -> bool {
        self.shutdown
    }

    /// Well-formedness: one entry per unit.
    pub open spec fn wf(&self) -> bool {
        unique_unit_ids(self.units())
    }

    /// No in-flight counter is saturated, so admitting one more piece of work cannot overflow.
    pub open spec fn counters_below_max(&self) -> bool {
        forall|i: int| 0 <= i < self.units().len() ==> self.units()[i].in_flight < usize::MAX
    }

    /// Creates an empty, running registry.
    pub fn new(max_registered_units: Option<usize>) -> (r: Self)
        ensures
            r.wf(),
            r.units().len() == 0,
            r.max_units() == max_registered_units,
            !r.is_shut_down(),
    {
        let r = UnitRegistry { units: Vec::new(), max_registered_units, shutdown: false };
        assert(r.units() =~= Seq::<UnitEntryModel>::empty());
        r
    }

    /// Fails with `Shutdown` once the registry has been shut down.
    pub fn ensure_running(&self) -> (r: Result<(), FrameworkError>)
        ensures
            self.is_shut_down() ==> r == Err::<(), FrameworkError>(FrameworkError::Shutdown),
            !self.is_shut_down() ==> r is Ok,
    {
        if self.shutdown {
            Err(FrameworkError::Shutdown)
        } else {
            Ok(())
        }
    }

    fn find(&self, unit_id: &String) -> (r: Option<usize>)
        requires
            self.wf(),
        ensures
            match r {
                Some(i) => i < self.units().len() && self.units()[i as int].descriptor.unit_id == unit_id@
                    && unit_index(self.units(), unit_id@) == i,
                None => !has_unit(self.units(), unit_id@),
            },
    {
        let n = self.units.len();
        let mut i: usize = 0;
        while i < n
            invariant
                n == self.units@.len(),
                i <= n,
                self.wf(),
                forall|j: int| 0 <= j < i ==> self.units()[j].descriptor.unit_id != unit_id@,
            decreases n - i,
        {
            if self.units[i].descriptor.unit_id == *unit_id {
                proof {
                    assert(self.units()[i as int] == self.units@[i as int]@);
                    assert(self.units()[i as int].descriptor.unit_id == unit_id@);
                    assert(has_unit(self.units(), unit_id@));
                    let c = unit_index(self.units(), unit_id@);
                    assert(0 <= c < self.units().len() && self.units()[c].descriptor.unit_id == unit_id@);
                    assert(c == i);
                }
                return Some(i);
            }
            i = i + 1;
        }
        None
    }

    /// Checks that a descriptor can be registered: its unit must be new and the registry
    /// must be below its unit limit.
    pub fn validate_registration_capacity(&self, descriptor: &UnitDescriptor) -> (r: Result<(), FrameworkError>)
        requires
            self.wf(),
        ensures
            has_unit(self.units(), descriptor.unit_id@) ==> (r matches Err(FrameworkError::InvalidProtocol { reason })
                && reason@ == "unit already registered: "@ + debug_quoted(descriptor.unit_id@)),
            !has_unit(self.units(), descriptor.unit_id@) && (self.max_units() matches Some(m)
                && self.units().len() >= m) ==> (r matches Err(FrameworkError::Backpressured { reason })
                && reason@ == "maximum registered System 1 units reached"@),
            !has_unit(self.units(), descriptor.unit_id@) && !(self.max_units() matches Some(m)
                && self.units().len() >= m) ==> r is Ok,
    {
        if self.find(&descriptor.unit_id).is_some() {
            let quoted = debug_text(descriptor.unit_id.as_str());
            return Err(FrameworkError::InvalidProtocol { reason: concat2("unit already registered: ", quoted.as_str()) });
        }
        match self.max_registered_units {
            Some(max_units) => {
                if self.units.len() >= max_units {
                    return Err(
                        FrameworkError::Backpressured { reason: "maximum registered System 1 units reached".to_owned() },
                    );
                }
            },
            None => {},
        }
        Ok(())
    }

    /// Registers a unit: the registry must be running and the descriptor must pass
    /// `validate_registration_capacity`; the unit is appended with nothing in flight.
    pub fn register_unit(&mut self, registration: UnitRegistration) -> (r: Result<UnitDescriptor, FrameworkError>)
        requires
            old(self).wf(),
        ensures
            final(self).wf(),
            final(self).max_units() == old(self).max_units(),
            final(self).is_shut_down() == old(self).is_shut_down(),
            old(self).is_shut_down() ==> r == Err::<UnitDescriptor, FrameworkError>(FrameworkError::Shutdown),
            !old(self).is_shut_down() && has_unit(old(self).units(), registration.descriptor.unit_id@)
                ==> (r matches Err(FrameworkError::InvalidProtocol { reason }) && reason@ == "unit already registered: "@
                + debug_quoted(registration.descriptor.unit_id@)),
            !old(self).is_shut_down() && !has_unit(old(self).units(), registration.descriptor.unit_id@)
                && (old(self).max_units() matches Some(m) && old(self).units().len() >= m)
                ==> (r matches Err(FrameworkError::Backpressured { reason }) && reason@
                == "maximum registered System 1 units reached"@),
            r is Err ==> final(self).units() == old(self).units(),
            r is Ok <==> (!old(self).is_shut_down() && !has_unit(old(self).units(), registration.descriptor.unit_id@)
                && !(old(self).max_units() matches Some(m) && old(self).units().len() >= m)),
            r matches Ok(d) ==> (d@ == registration.descriptor@ && final(self).units() == old(self).units().push(
                UnitEntryModel {
                    descriptor: registration.descriptor@,
                    admission: registration.admission,
                    save_on_unregister: registration.save_on_unregister,
                    in_flight: 0,
                    draining: false,
                },
            )),
    {
        match self.ensure_running() {
            Err(e) => return Err(e),
            Ok(()) => {},
        }
        match self.validate_registration_capacity(&registration.descriptor) {
            Err(e) => return Err(e),
            Ok(()) => {},
        }
        let descriptor = registration.descriptor.duplicate();
        let entry = UnitEntry {
            descriptor: registration.descriptor,
            admission: registration.admission,
            save_on_unregister: registration.save_on_unregister,
            in_flight: 0,
            draining: false,
        };
        let ghost before = self.units();
        let ghost em = entry@;
        self.units.push(entry);
        assert(self.units() =~= before.push(em));
        Ok(descriptor)
    }

    /// Lists the registered units in registration order.
    pub fn list_units(&self) -> (r: Vec<RegisteredUnit>)
        ensures
            r@.len() == self.units().len(),
            forall|i: int|
                0 <= i < r@.len() ==> {
                    &&& #[trigger] r@[i].descriptor@ == self.units()[i].descriptor
                    &&& r@[i].in_flight == self.units()[i].in_flight
                    &&& r@[i].admission == self.units()[i].admission
                    &&& r@[i].draining == self.units()[i].draining
                },
    {
        let mut out: Vec<RegisteredUnit> = Vec::new();
        let n = self.units.len();
        let mut i: usize = 0;
        while i < n
            invariant
                n == self.units@.len(),
                i <= n,
                out@.len() == i,
                forall|k: int|
                    0 <= k < i ==> {
                        &&& #[trigger] out@[k].descriptor@ == self.units()[k].descriptor
                        &&& out@[k].in_flight == self.units()[k].in_flight
                        &&& out@[k].admission == self.units()[k].admission
                        &&& out@[k].draining == self.units()[k].draining
                    },
            decreases n - i,
        {
            let e = &self.units[i];
            assert(self.units()[i as int] == self.units@[i as int]@);
            out.push(
                RegisteredUnit {
                    descriptor: e.descriptor.duplicate(),
                    in_flight: e.in_flight,
                    admission: e.admission,
                    draining: e.draining,
                },
            );
            i = i + 1;
        }
        out
    }

    /// Copies the entry of a registered unit.
    pub fn unit_entry(&self, unit_id: &String) -> (r: Result<UnitEntry, FrameworkError>)
        requires
            self.wf(),
        ensures
            has_unit(self.units(), unit_id@) ==> (r matches Ok(e) && e@ == self.units()[unit_index(
                self.units(),
                unit_id@,
            )]),
            !has_unit(self.units(), unit_id@) ==> (r matches Err(e) && unit_unavailable(e, unit_id@)),
    {
        match self.find(unit_id) {
            Some(i) => Ok(self.units[i].duplicate()),
            None => Err(missing_unit(unit_id)),
        }
    }

    /// Marks a registered unit as draining: it keeps its work but is offered no more.
    pub fn drain_unit(&mut self, unit_id: &String) -> (r: Result<(), FrameworkError>)
        requires
            old(self).wf(),
        ensures
            final(self).wf(),
            final(self).max_units() == old(self).max_units(),
            final(self).is_shut_down() == old(self).is_shut_down(),
            !has_unit(old(self).units(), unit_id@) ==> (r matches Err(e) && unit_unavailable(e, unit_id@)
                && final(self).units() == old(self).units()),
            has_unit(old(self).units(), unit_id@) ==> r is Ok && final(self).units() == old(self).units().update(
                unit_index(old(self).units(), unit_id@),
                UnitEntryModel { draining: true, ..old(self).units()[unit_index(old(self).units(), unit_id@)] },
            ),
    {
        match self.find(unit_id) {
            None => Err(missing_unit(unit_id)),
            Some(i) => {
                let ghost before = self.units();
                let mut e = self.units[i].duplicate();
                e.draining = true;
                self.units.set(i, e);
                assert(self.units() =~= before.update(i as int, UnitEntryModel { draining: true, ..before[i as int] }));
                Ok(())
            },
        }
    }

    /// Removes a registered unit and returns its entry.
    pub fn unregister_unit(&mut self, unit_id: &String) -> (r: Result<UnitEntry, FrameworkError>)
        requires
            old(self).wf(),
        ensures
            final(self).wf(),
            final(self).max_units() == old(self).max_units(),
            final(self).is_shut_down() == old(self).is_shut_down(),
            !has_unit(old(self).units(), unit_id@) ==> (r matches Err(e) && unit_unavailable(e, unit_id@)
                && final(self).units() == old(self).units()),
            has_unit(old(self).units(), unit_id@) ==> (r matches Ok(e) && e@ == old(self).units()[unit_index(
                old(self).units(),
                unit_id@,
            )] && final(self).units() == old(self).units().remove(unit_index(old(self).units(), unit_id@))),
    {
        match self.find(unit_id) {
            None => Err(missing_unit(unit_id)),
            Some(i) => {
                let ghost before = self.units();
                let e = self.units.remove(i);
                assert(self.units() =~= before.remove(i as int));
                Ok(e)
            },
        }
    }

    /// Shuts the registry down once; the first call removes and returns every unit in
    /// registration order, later calls return nothing.
    pub fn shutdown(&mut self) -> (r: Vec<UnitEntry>)
        requires
            old(self).wf(),
        ensures
            final(self).wf(),
            final(self).is_shut_down(),
            final(self).max_units() == old(self).max_units(),
            old(self).is_shut_down() ==> r@.len() == 0 && final(self).units() == old(self).units(),
            !old(self).is_shut_down() ==> view_seq(r@) == old(self).units() && final(self).units().len() == 0,
    {
        if self.shutdown {
            return Vec::new();
        }
        self.shutdown = true;
        let mut removed: Vec<UnitEntry> = Vec::new();
        std::mem::swap(&mut removed, &mut self.units);
        assert(self.units() =~= Seq::<UnitEntryModel>::empty());
        removed
    }

    /// Merges each unit's reported capacity (`reported[i]` for the i-th registered unit)
    /// with its admission state, counts the units that advertise every required
    /// capability, and keeps those of them that accept work.
    pub fn eligible_units(&self, required: &[String], reported: &Vec<CapacitySnapshot>) -> (r: EligibleUnits)
        requires
            reported@.len() == self.units().len(),
        ensures
            r.static_eligible_count == advertisers_upto(self.units(), texts(required@), self.units().len() as int),
            view_seq(r.accepting_candidates@) == candidates_upto(
                self.units(),
                reported@,
                texts(required@),
                self.units().len() as int,
            ),
    {
        let ghost req = texts(required@);
        let mut count: usize = 0;
        let mut accepting: Vec<UnitCandidate> = Vec::new();
        let n = self.units.len();
        let mut i: usize = 0;
        while i < n
            invariant
                n == self.units@.len(),
                n == reported@.len(),
                i <= n,
                req == texts(required@),
                count as nat == advertisers_upto(self.units(), req, i as int),
                count <= i,
                view_seq(accepting@) == candidates_upto(self.units(), reported@, req, i as int),
            decreases n - i,
        {
            let entry = &self.units[i];
            assert(self.units()[i as int] == entry@);
            let cap = reported[i];
            let max = match entry.admission.max_in_flight {
                Some(m) => Some(m),
                None => cap.max_in_flight,
            };
            let below = match max {
                Some(m) => entry.in_flight < m,
                None => true,
            };
            let merged = CapacitySnapshot {
                observed_at: cap.observed_at,
                in_flight: entry.in_flight,
                max_in_flight: max,
                accepting_work: cap.accepting_work && !entry.draining && below,
            };
            assert(merged == merged_capacity(self.units()[i as int], reported@[i as int]));
            let advertises = entry.descriptor.advertises_all(required);
            assert(advertises == advertises_all(self.units()[i as int].descriptor, req)) by {
                let d = self.units()[i as int].descriptor;
                assert(d.advertised() == entry.descriptor.advertised());
                assert(req.len() == required@.len());
                if advertises {
                    assert forall|j: int| 0 <= j < req.len() implies #[trigger] d.advertised().contains(req[j]) by {
                        assert(req[j] == required@[j]@);
                        assert(entry.descriptor.advertised().contains(required@[j]@));
                    }
                } else {
                    let j = choose|j: int|
                        0 <= j < required@.len() && !#[trigger] entry.descriptor.advertised().contains(required@[j]@);
                    assert(req[j] == required@[j]@);
                    assert(!d.advertised().contains(req[j]));
                }
            }
            if advertises {
                count = count + 1;
                if merged.accepting_work {
                    let ghost before = accepting@;
                    let cand = UnitCandidate { descriptor: entry.descriptor.duplicate(), capacity: merged };
                    accepting.push(cand);
                    assert(view_seq(accepting@) =~= view_seq(before).push(
                        UnitCandidateModel { descriptor: self.units()[i as int].descriptor, capacity: merged },
                    ));
                }
            }
            i = i + 1;
        }
        EligibleUnits { static_eligible_count: count, accepting_candidates: accepting }
    }

    /// Reserves a slot on a unit for one piece of work. A unit that is missing, draining
    /// or at its admission limit is not reserved.
    pub fn reserve_unit(&mut self, unit_id: &String) -> (r: Option<UnitEntry>)
        requires
            old(self).wf(),
            old(self).counters_below_max(),
        ensures
            final(self).wf(),
            final(self).max_units() == old(self).max_units(),
            final(self).is_shut_down() == old(self).is_shut_down(),
            final(self).units() == after_reserve(old(self).units(), unit_id@),
            can_reserve(old(self).units(), unit_id@) ==> (r matches Some(e) && e@ == after_reserve(
                old(self).units(),
                unit_id@,
            )[unit_index(old(self).units(), unit_id@)]),
            !can_reserve(old(self).units(), unit_id@) ==> r is None,
    {
        match self.find(unit_id) {
            None => None,
            Some(i) => {
                let at_capacity = match self.units[i].admission.max_in_flight {
                    Some(max) => self.units[i].in_flight >= max,
                    None => false,
                };
                if self.units[i].draining || at_capacity {
                    return None;
                }
                let ghost before = self.units();
                let mut e = self.units[i].duplicate();
                assert(before[i as int].in_flight < usize::MAX);
                e.in_flight = e.in_flight + 1;
                let copy = e.duplicate();
                self.units.set(i, e);
                assert(self.units() =~= before.update(i as int, copy@));
                Some(copy)
            },
        }
    }

    /// Releases a slot reserved on a unit; the count never goes below zero.
    pub fn release_unit(&mut self, unit_id: &String)
        requires
            old(self).wf(),
        ensures
            final(self).wf(),
            final(self).max_units() == old(self).max_units(),
            final(self).is_shut_down() == old(self).is_shut_down(),
            final(self).units() == after_release(old(self).units(), unit_id@),
    {
        match self.find(unit_id) {
            None => {},
            Some(i) => {
                let ghost before = self.units();
                let mut e = self.units[i].duplicate();
                e.in_flight = e.in_flight.saturating_sub(1);
                let ghost em = e@;
                self.units.set(i, e);
                assert(self.units() =~= before.update(i as int, em));
            },
        }
    }

    /// Acknowledgements for an intervention, one per target unit in order. A registered
    /// target's acknowledgement is its delivery result (`replies[i]`), a failed delivery
    /// becoming a failed acknowledgement; an unregistered target fails as unavailable.
    pub fn apply_coordination_intervention(
        &self,
        intervention: &CoordinationIntervention,
        replies: Vec<Result<CoordinationAcknowledgement, FrameworkError>>,
        now: i64,
    ) -> (r: Vec<CoordinationAcknowledgement>)
        requires
            self.wf(),
            replies@.len() == intervention.target_units@.len(),
        ensures
            r@.len() == intervention.target_units@.len(),
            forall|i: int|
                0 <= i < r@.len() ==> {
                    let target = intervention.target_units@[i]@;
                    if has_unit(self.units(), target) {
                        match replies@[i] {
                            Ok(a) => #[trigger] r@[i]@ == a@,
                            Err(e) => r@[i]@ == (CoordinationAcknowledgementModel {
                                metadata: child_metadata(intervention.metadata@),
                                intervention_id: intervention.intervention_id@,
                                unit_id: target,
                                status: CoordinationAckStatus::Failed,
                                reason: Some(framework_message(e)),
                                observed_at: now,
                            }),
                        }
                    } else {
                        r@[i]@ == (CoordinationAcknowledgementModel {
                            metadata: child_metadata(intervention.metadata@),
                            intervention_id: intervention.intervention_id@,
                            unit_id: target,
                            status: CoordinationAckStatus::Failed,
                            reason: Some("target unavailable: "@ + missing_unit_target(target)),
                            observed_at: now,
                        })
                    }
                },
    {
        let ghost all = replies@;
        let mut replies = replies;
        let mut out: Vec<CoordinationAcknowledgement> = Vec::new();
        let n = intervention.target_units.len();
        let mut i: usize = 0;
        while i < n
            invariant
                n == intervention.target_units@.len(),
                n == all.len(),
                i <= n,
                self.wf(),
                replies@ == all.skip(i as int),
                out@.len() == i,
                forall|k: int|
                    0 <= k < i ==> {
                        let target = intervention.target_units@[k]@;
                        if has_unit(self.units(), target) {
                            match all[k] {
                                Ok(a) => #[trigger] out@[k]@ == a@,
                                Err(e) => out@[k]@ == (CoordinationAcknowledgementModel {
                                    metadata: child_metadata(intervention.metadata@),
                                    intervention_id: intervention.intervention_id@,
                                    unit_id: target,
                                    status: CoordinationAckStatus::Failed,
                                    reason: Some(framework_message(e)),
                                    observed_at: now,
                                }),
                            }
                        } else {
                            out@[k]@ == (CoordinationAcknowledgementModel {
                                metadata: child_metadata(intervention.metadata@),
                                intervention_id: intervention.intervention_id@,
                                unit_id: target,
                                status: CoordinationAckStatus::Failed,
                                reason: Some("target unavailable: "@ + missing_unit_target(target)),
                                observed_at: now,
                            })
                        }
                    },
            decreases n - i,
        {
            let ghost before = replies@;
            assert(before.len() > 0);
            let reply = replies.remove(0);
            assert(replies@ =~= all.skip(i + 1));
            assert(reply == all[i as int]);
            let target = intervention.target_units[i].clone();
            let ack = match self.unit_entry(&target) {
                Ok(_) => match reply {
                    Ok(a) => a,
                    Err(e) => {
                        let reason = e.message();
                        CoordinationAcknowledgement::failed(intervention, target, reason, now)
                    },
                },
                Err(e) => {
                    let reason = e.message();
                    CoordinationAcknowledgement::failed(intervention, target, reason, now)
                },
            };
            out.push(ack);
            i = i + 1;
        }
        out
    }
}

/// The work model's classification of an attempt, or `FrameworkFailed` when it gave none.
pub open spec fn observed_disposition_spec(classified: Option<WorkDisposition>) -> WorkDisposition {
    match classified {
        Some(d) => d,
        None => WorkDisposition::FrameworkFailed,
    }
}

/// The disposition recorded for a work attempt: the work model's classification, or
/// `FrameworkFailed` when the work model could not classify it.
pub fn observed_disposition(classified: Option<WorkDisposition>) -> (r: WorkDisposition)
    ensures
        r == observed_disposition_spec(classified),
{
    match classified {
        Some(d) => d,
        None => WorkDisposition::FrameworkFailed,
    }
}

/// The role System 1 consults next while recording a work attempt.
#[derive(Debug, Clone, Copy, PartialEq, Eq, Structural)]
pub enum WorkObservationStep {
    /// The work model classifies the outcome or the error.
    Classify,
    /// The work model reports the measurements of a successful response.
    Measure,
    /// The performance model assesses the observation and its measurements.
    AssessPerformance,
    /// The variety model assesses the request and its response.
    AssessVariety,
    /// The algedonic policy classifies the observation and its assessment.
    ClassifyAlgedonic,
    /// Nothing more runs for this attempt.
    Done,
}

/// What the last role consulted while recording a work attempt gave.
#[derive(Debug, Clone, Copy, PartialEq, Eq, Structural)]
pub enum WorkObservationEvent {
    /// Nothing has been consulted yet.
    Started,
    /// The attempt was classified (a failed classification counts as `FrameworkFailed`).
    Classified,
    /// The measurements were taken (a failed call counts as no measurements).
    Measured,
    /// The performance assessment succeeded or failed.
    Assessed { succeeded: bool },
    /// The variety model answered, whatever it answered.
    VarietyAssessed,
    /// The algedonic policy answered, whatever it answered.
    AlgedonicClassified,
}

/// The order of the roles for a work attempt: classify; measure only a successful
/// attempt; assess performance; only after a successful assessment, assess variety and
/// then classify algedonically; then stop.
pub open spec fn work_observation_step(work_succeeded: bool, last: WorkObservationEvent) -> WorkObservationStep {
    match last {
        WorkObservationEvent::Started => WorkObservationStep::Classify,
        WorkObservationEvent::Classified => if work_succeeded {
            WorkObservationStep::Measure
        } else {
            WorkObservationStep::AssessPerformance
        },
        WorkObservationEvent::Measured => WorkObservationStep::AssessPerformance,
        WorkObservationEvent::Assessed { succeeded } => if succeeded {
            WorkObservationStep::AssessVariety
        } else {
            WorkObservationStep::Done
        },
        WorkObservationEvent::VarietyAssessed => WorkObservationStep::ClassifyAlgedonic,
        WorkObservationEvent::AlgedonicClassified => WorkObservationStep::Done,
    }
}

/// The role to consult next while recording a work attempt, given whether the work
/// succeeded and what the last role gave. Measurements are asked for only after a
/// successful attempt is classified; the variety model and the algedonic policy run only
/// after a successful performance assessment.
pub fn next_work_observation_step(work_succeeded: bool, last: WorkObservationEvent) -> (r: WorkObservationStep)
    ensures
        r == work_observation_step(work_succeeded, last),
        r == WorkObservationStep::Measure <==> (work_succeeded && last == WorkObservationEvent::Classified),
        r == WorkObservationStep::AssessVariety <==> last == (WorkObservationEvent::Assessed { succeeded: true }),
        r == WorkObservationStep::ClassifyAlgedonic <==> last == WorkObservationEvent::VarietyAssessed,
{
    match last {
        WorkObservationEvent::Started => WorkObservationStep::Classify,
        WorkObservationEvent::Classified => if work_succeeded {
            WorkObservationStep::Measure
        } else {
            WorkObservationStep::AssessPerformance
        },
        WorkObservationEvent::Measured => WorkObservationStep::AssessPerformance,
        WorkObservationEvent::Assessed { succeeded } => if succeeded {
            WorkObservationStep::AssessVariety
        } else {
            WorkObservationStep::Done
        },
        WorkObservationEvent::VarietyAssessed => WorkObservationStep::ClassifyAlgedonic,
        WorkObservationEvent::AlgedonicClassified => WorkObservationStep::Done,
    }
}

/// Decides admission from the eligible units: no advertising unit means a resource
/// shortage and `Unavailable`; advertising units that all refuse work mean `Backpressured`;
/// otherwise the accepting candidates go to the selection policy.
pub fn admission_outcome(eligible: EligibleUnits, required_capabilities: Vec<String>) -> (r: (
    Result<Vec<UnitCandidate>, FrameworkError>,
    Option<ResourceShortageRequest>,
))
    ensures
        eligible.static_eligible_count == 0 ==> (r.1 matches Some(s) && fresh_metadata(s.metadata@)),
        eligible.static_eligible_count == 0 ==> {
            &&& r.0 matches Err(FrameworkError::Unavailable { target }) && target@ == "system1.unit"@
            &&& r.1 matches Some(s) && s.required_capabilities@ == required_capabilities@ && s.work_label is None
                && s.reason@ == "no registered System 1 unit advertises every required capability"@
        },
        eligible.static_eligible_count > 0 && eligible.accepting_candidates@.len() == 0 ==> {
            &&& r.0 matches Err(FrameworkError::Backpressured { reason }) && reason@
                == "all eligible System 1 units are at admission capacity"@
            &&& r.1 is None
        },
        eligible.static_eligible_count > 0 && eligible.accepting_candidates@.len() > 0 ==> {
            &&& r.0 matches Ok(c) && c@ == eligible.accepting_candidates@
            &&& r.1 is None
        },
{
    if eligible.static_eligible_count == 0 {
        let shortage = ResourceShortageRequest {
            metadata: ProtocolMetadata::new(),
            required_capabilities,
            work_label: None,
            reason: "no registered System 1 unit advertises every required capability".to_owned(),
        };
        return (Err(FrameworkError::Unavailable { target: "system1.unit".to_owned() }), Some(shortage));
    }
    if eligible.accepting_candidates.len() == 0 {
        return (
            Err(FrameworkError::Backpressured { reason: "all eligible System 1 units are at admission capacity".to_owned() }),
            None,
        );
    }
    (Ok(eligible.accepting_candidates), None)
}

/// Fills in a missing deadline as `now` plus the default work timeout.
pub fn with_default_deadline(options: WorkOptions, now: i64, default_timeout_ms: u64) -> (r: WorkOptions)
    requires
        now + default_timeout_ms <= i64::MAX,
    ensures
        r.priority == options.priority,
        r.deadline == match options.deadline {
            Some(d) => Some(d),
            None => Some((now + default_timeout_ms) as i64),
        },
{
    match options.deadline {
        Some(_) => options,
        None => {
            let deadline = (now as i128 + default_timeout_ms as i128) as i64;
            WorkOptions { deadline: Some(deadline), priority: options.priority }
        },
    }
}

/// Time left before a deadline, or nothing when there is no deadline or it has passed.
pub fn request_timeout(deadline: Option<i64>, now: i64) -> (r: Option<u64>)
    ensures
        r == match deadline {
            Some(d) => if d >= now { Some((d - now) as u64) } else { None },
            None => None,
        },
{
    match deadline {
        Some(d) => {
            if d >= now {
                let left = (d as i128 - now as i128) as u64;
                Some(left)
            } else {
                None
            }
        },
        None => None,
    }
}

/// The timeout of a call to a unit: the time left before the deadline (else the default),
/// plus one second of grace, saturating.
pub fn call_timeout_ms(deadline: Option<i64>, now: i64, default_timeout_ms: u64) -> (r: u64)
    ensures
        r == ({
            let base = match request_timeout_spec(deadline, now) {
                Some(t) => t,
                None => default_timeout_ms,
            };
            if base + 1000 <= u64::MAX { (base + 1000) as u64 } else { u64::MAX }
        }),
{
    let base = match request_timeout(deadline, now) {
        Some(t) => t,
        None => default_timeout_ms,
    };
    base.saturating_add(1000)
}

/// Time left before a deadline, for specifications.
pub open spec fn request_timeout_spec(deadline: Option<i64>, now: i64) -> Option<u64> {
    match deadline {
        Some(d) => if d >= now { Some((d - now) as u64) } else { None },
        None => None,
    }
}

/// The name of a unit's actor: `runtime:path:System1:unit:"<id>"`.
pub fn unit_actor_name(runtime_id: &RuntimeId, recursion_path: &RecursionPath, descriptor: &UnitDescriptor) -> (r:
    String)
    ensures
        r@ == runtime_id@ + ":"@ + path_label(recursion_path@) + ":System1:unit:"@ + debug_quoted(
            descriptor.unit_id@,
        ),
{
    let mut out = runtime_id.as_str().to_owned();
    out.append(":");
    let path = recursion_path.label();
    out.append(path.as_str());
    out.append(":System1:unit:");
    let quoted = debug_text(descriptor.unit_id.as_str());
    out.append(quoted.as_str());
    out
}

impl UnitRegistry {
    /// Reserves the unit chosen by the selection policy. No choice means no unit is
    /// available; a chosen unit that can no longer be reserved means backpressure.
    pub fn reserve_selected(&mut self, selected: Option<String>) -> (r: Result<UnitEntry, FrameworkError>)
        requires
            old(self).wf(),
            old(self).counters_below_max(),
        ensures
            final(self).wf(),
            final(self).max_units() == old(self).max_units(),
            final(self).is_shut_down() == old(self).is_shut_down(),
            selected is None ==> (r matches Err(FrameworkError::Unavailable { target }) && target@
                == "system1.unit"@) && final(self).units() == old(self).units(),
            selected matches Some(id) ==> ({
                let units = old(self).units();
                let k = unit_index(units, id@);
                if has_unit(units, id@) && !units[k].draining && below_limit(
                    units[k].in_flight,
                    units[k].admission.max_in_flight,
                ) {
                    let updated = UnitEntryModel { in_flight: (units[k].in_flight + 1) as usize, ..units[k] };
                    &&& final(self).units() == units.update(k, updated)
                    &&& r matches Ok(e) && e@ == updated
                } else {
                    &&& final(self).units() == units
                    &&& r matches Err(FrameworkError::Backpressured { reason }) && reason@
                        == "selected unit is no longer accepting work: "@ + debug_quoted(id@)
                }
            }),
    {
        match selected {
            None => Err(FrameworkError::Unavailable { target: "system1.unit".to_owned() }),
            Some(id) => match self.reserve_unit(&id) {
                Some(e) => Ok(e),
                None => {
                    let quoted = debug_text(id.as_str());
                    Err(
                        FrameworkError::Backpressured {
                            reason: concat2("selected unit is no longer accepting work: ", quoted.as_str()),
                        },
                    )
                },
            },
        }
    }
}

/// The failure reported when a call to a unit's actor does not complete.
pub fn unit_call_failed(actor_name: &String) -> (e: FrameworkError)
    ensures
        e matches FrameworkError::Timeout { operation } && operation@ == "typed System 1 unit work via "@
            + actor_name@,
{
    FrameworkError::Timeout { operation: concat2("typed System 1 unit work via ", actor_name.as_str()) }
}

/// Admission state kept by a unit's actor.
pub struct UnitActorState {
    pub unit_id: String,
    pub admission: UnitAdmissionLimits,
    pub in_flight: usize,
    pub draining: bool,
}

/// The operation named when unit work runs out of time.
pub open spec fn unit_work_operation() -> Seq<char> {
    "typed System 1 unit work"@
}

impl UnitActorState {
    /// A unit actor that has just started: nothing in flight, not draining.
    pub fn new(unit_id: String, admission: UnitAdmissionLimits) -> (r: Self)
        ensures
            r.unit_id == unit_id,
            r.admission == admission,
            r.in_flight == 0,
            !r.draining,
    {
        UnitActorState { unit_id, admission, in_flight: 0, draining: false }
    }

    /// The unit's reported capacity with the actor's own admission state applied.
    pub fn capacity(&self, reported: CapacitySnapshot) -> (r: CapacitySnapshot)
        ensures
            r.observed_at == reported.observed_at,
            r.in_flight == self.in_flight,
            r.max_in_flight == effective_limit(self.admission, reported.max_in_flight),
            r.accepting_work == (reported.accepting_work && !self.draining && below_limit(
                self.in_flight,
                r.max_in_flight,
            )),
    {
        let max = match self.admission.max_in_flight {
            Some(m) => Some(m),
            None => reported.max_in_flight,
        };
        let below = match max {
            Some(m) => self.in_flight < m,
            None => true,
        };
        CapacitySnapshot {
            observed_at: reported.observed_at,
            in_flight: self.in_flight,
            max_in_flight: max,
            accepting_work: reported.accepting_work && !self.draining && below,
        }
    }

    /// Stops the unit from taking new work.
    pub fn drain(&mut self)
        ensures
            final(self).draining,
            final(self).in_flight == old(self).in_flight,
            final(self).admission == old(self).admission,
            final(self).unit_id == old(self).unit_id,
    {
        self.draining = true;
    }

    /// Admits one piece of work that has `time_left` milliseconds before its deadline
    /// (none when the deadline is missing or has passed). A draining unit, a unit at its
    /// admission limit and work without time left are refused; admitted work is counted.
    pub fn begin_work(&mut self, time_left: Option<u64>) -> (r: Result<u64, FrameworkError>)
        requires
            old(self).in_flight < usize::MAX,
        ensures
            final(self).unit_id == old(self).unit_id,
            final(self).admission == old(self).admission,
            final(self).draining == old(self).draining,
            old(self).draining ==> (r matches Err(FrameworkError::Backpressured { reason }) && reason@
                == "unit is draining: "@ + debug_quoted(old(self).unit_id@)),
            !old(self).draining && !below_limit(old(self).in_flight, old(self).admission.max_in_flight) ==> (
            r matches Err(FrameworkError::Backpressured { reason }) && reason@ == "unit is at admission capacity: "@
                + debug_quoted(old(self).unit_id@)),
            !old(self).draining && below_limit(old(self).in_flight, old(self).admission.max_in_flight)
                && time_left is None ==> (r matches Err(FrameworkError::Timeout { operation }) && operation@
                == unit_work_operation()),
            r is Ok <==> (!old(self).draining && below_limit(old(self).in_flight, old(self).admission.max_in_flight)
                && time_left is Some),
            r matches Ok(t) ==> Some(t) == time_left && final(self).in_flight == old(self).in_flight + 1,
            r is Err ==> final(self).in_flight == old(self).in_flight,
    {
        if self.draining {
            let quoted = debug_text(self.unit_id.as_str());
            return Err(FrameworkError::Backpressured { reason: concat2("unit is draining: ", quoted.as_str()) });
        }
        let at_capacity = match self.admission.max_in_flight {
            Some(max) => self.in_flight >= max,
            None => false,
        };
        if at_capacity {
            let quoted = debug_text(self.unit_id.as_str());
            return Err(
                FrameworkError::Backpressured { reason: concat2("unit is at admission capacity: ", quoted.as_str()) },
            );
        }
        match time_left {
            None => Err(FrameworkError::Timeout { operation: "typed System 1 unit work".to_owned() }),
            Some(t) => {
                self.in_flight = self.in_flight + 1;
                Ok(t)
            },
        }
    }

    /// Ends one piece of work; the count never goes below zero.
    pub fn finish_work(&mut self)
        ensures
            final(self).in_flight == if old(self).in_flight > 0 { (old(self).in_flight - 1) as usize } else { 0 },
            final(self).unit_id == old(self).unit_id,
            final(self).admission == old(self).admission,
            final(self).draining == old(self).draining,
    {
        self.in_flight = self.in_flight.saturating_sub(1);
    }
}

/// `expected version SnapshotVersion(e), found SnapshotVersion(f)`, the versions as `{:?}` prints them.
pub open spec fn version_mismatch_text(expected: SnapshotVersion, found: SnapshotVersion) -> Seq<char> {
    "expected version SnapshotVersion("@ + decimal(expected.0) + "), found SnapshotVersion("@ + decimal(found.0)
        + ")"@
}

/// Checks a stored unit snapshot against the version the unit expects; a stored
/// snapshot of another version cannot be restored.
pub fn check_snapshot_version(key: &SnapshotKey, expected: SnapshotVersion, found: SnapshotVersion) -> (r: Result<
    (),
    FrameworkError,
>)
    ensures
        expected == found <==> r is Ok,
        expected != found ==> (r matches Err(FrameworkError::SnapshotIncompatible { key: k, reason }) && k@
            == stable_key_text(key.runtime_id@, key.recursion_path@, key.role, key.entity) && reason@
            == version_mismatch_text(expected, found)),
{
    if expected.0 == found.0 {
        return Ok(());
    }
    let mut reason = "expected version SnapshotVersion(".to_owned();
    let e = u64_text(expected.0);
    reason.append(e.as_str());
    reason.append("), found SnapshotVersion(");
    let f = u64_text(found.0);
    reason.append(f.as_str());
    reason.append(")");
    Err(FrameworkError::SnapshotIncompatible { key: key.stable_id(), reason })
}

} // verus!

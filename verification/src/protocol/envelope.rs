//! Framework-owned envelope metadata.

use std::collections::BTreeMap;

use vstd::prelude::*;

use super::address::{opt_address, RecursionPath, RuntimeId, SubsystemRole, VsmAddress, VsmAddressModel};
use crate::dup::Duplicate;
use crate::support::{fresh_uuid, is_uuid_v4_text};

verus! {

/// Correlation or causation identifier.
#[derive(Debug, PartialEq, Eq, Hash)]
pub struct CorrelationId(String);

impl View for CorrelationId {
    type V = Seq<char>;

    closed spec fn view(&self) -> Seq<char> {
        self.0@
    }
}

impl Clone for CorrelationId {
    fn clone(&self) -> (r: Self)
        ensures
            r@ == self@,
    {
        CorrelationId(self.0.clone())
    }
}

impl CorrelationId {
    /// Creates a fresh correlation ID backed by a random UUID string.
    pub fn new() -> (r: Self)
        ensures
            is_uuid_v4_text(r@),
    {
        CorrelationId(fresh_uuid())
    }

    /// Creates an ID from an existing string.
    pub fn from_string(value: String) -> (r: Self)
        ensures
            r@ == value@,
    {
        CorrelationId(value)
    }

    /// Returns the ID as a string slice.
    pub fn as_str(&self) -> (r: &str)
        ensures
            r@ == self@,
    {
        self.0.as_str()
    }
}

/// Protocol version carried by framework metadata.
#[derive(Debug, Clone, Copy, PartialEq, Eq, Hash, Structural)]
pub struct ProtocolVersion {
    pub major: u16,
    pub minor: u16,
}

impl ProtocolVersion {
    /// Current protocol version for the foundational typed records: 0.1.
    pub fn current() -> (r: Self)
        ensures
            r.major == 0 && r.minor == 1,
    {
        ProtocolVersion { major: 0, minor: 1 }
    }
}

impl Default for ProtocolVersion {
    fn default() -> (r: Self)
        ensures
            r.major == 0 && r.minor == 1,
    {
        ProtocolVersion::current()
    }
}

/// Framework priority used by admission and routing policies.
#[derive(Debug, Clone, Copy, PartialEq, Eq, Hash, Structural)]
pub enum Priority {
    Low,
    Normal,
    High,
    Critical,
}

impl Default for Priority {
    fn default() -> (r: Self)
        ensures
            r == Priority::Normal,
    {
        Priority::Normal
    }
}

/// Trace context propagated by adapters and runtime handles.
#[derive(Debug, PartialEq, Eq)]
pub struct TraceContext {
    pub fields: BTreeMap<String, String>,
}

impl Clone for TraceContext {
    fn clone(&self) -> (r: Self)
        ensures
            r.fields@ == self.fields@,
    {
        TraceContext { fields: self.fields.clone() }
    }
}

impl TraceContext {
    /// Creates an empty trace context.
    pub fn new() -> (r: Self)
        ensures
            r.fields@ == Map::<String, String>::empty(),
    {
        TraceContext { fields: BTreeMap::new() }
    }
}

/// Framework metadata shared by typed protocol records.
///
/// The deadline is an instant in milliseconds since the Unix epoch.
#[derive(Debug, PartialEq, Eq)]
pub struct ProtocolMetadata {
    pub correlation_id: CorrelationId,
    pub causation_id: Option<CorrelationId>,
    pub deadline: Option<i64>,
    pub priority: Priority,
    pub protocol_version: ProtocolVersion,
    pub trace_context: TraceContext,
    pub source: Option<VsmAddress>,
    pub destination: Option<VsmAddress>,
}

/// The plain-value view of `ProtocolMetadata`.
pub struct ProtocolMetadataModel {
    pub correlation_id: Seq<char>,
    pub causation_id: Option<Seq<char>>,
    pub deadline: Option<i64>,
    pub priority: Priority,
    pub protocol_version: ProtocolVersion,
    pub trace_fields: Map<String, String>,
    pub source: Option<VsmAddressModel>,
    pub destination: Option<VsmAddressModel>,
}

impl View for ProtocolMetadata {
    type V = ProtocolMetadataModel;

    open spec fn view(&self) -> ProtocolMetadataModel {
        ProtocolMetadataModel {
            correlation_id: self.correlation_id@,
            causation_id: match self.causation_id {
                Some(c) => Some(c@),
                None => None,
            },
            deadline: self.deadline,
            priority: self.priority,
            protocol_version: self.protocol_version,
            trace_fields: self.trace_context.fields@,
            source: opt_address(self.source),
            destination: opt_address(self.destination),
        }
    }
}

impl Duplicate for ProtocolMetadata {
    fn duplicate(&self) -> (r: Self) {
        ProtocolMetadata {
            correlation_id: self.correlation_id.clone(),
            causation_id: match &self.causation_id {
                Some(c) => Some(c.clone()),
                None => None,
            },
            deadline: self.deadline,
            priority: self.priority,
            protocol_version: self.protocol_version,
            trace_context: self.trace_context.clone(),
            source: copy_address(&self.source),
            destination: copy_address(&self.destination),
        }
    }
}

/// Metadata for a record caused by the record with metadata `parent`: the same
/// correlation, deadline, priority, version, trace and addresses, caused by the parent's
/// correlation.
pub open spec fn child_of(m: ProtocolMetadataModel, parent: ProtocolMetadataModel) -> bool {
    m == child_metadata(parent)
}

/// The metadata a reply carries: the parent's, caused by the parent's correlation.
pub open spec fn child_metadata(parent: ProtocolMetadataModel) -> ProtocolMetadataModel {
    ProtocolMetadataModel { causation_id: Some(parent.correlation_id), ..parent }
}

/// Fresh framework metadata: a new correlation and the defaults, nothing else set.
pub open spec fn fresh_metadata(m: ProtocolMetadataModel) -> bool {
    &&& is_uuid_v4_text(m.correlation_id)
    &&& m.causation_id is None
    &&& m.deadline is None
    &&& m.priority == Priority::Normal
    &&& m.protocol_version.major == 0 && m.protocol_version.minor == 1
    &&& m.trace_fields == Map::<String, String>::empty()
    &&& m.source is None
    &&& m.destination is None
}

/// The metadata with the source set to a subsystem of a runtime.
pub open spec fn with_source(
    m: ProtocolMetadataModel,
    runtime_id: Seq<char>,
    recursion_path: Seq<Seq<char>>,
    role: SubsystemRole,
) -> ProtocolMetadataModel {
    ProtocolMetadataModel {
        source: Some(VsmAddressModel { runtime_id, recursion_path, role, entity: None }),
        ..m
    }
}

/// Two optional addresses that name the same place.
pub open spec fn same_address(a: Option<VsmAddress>, b: Option<VsmAddress>) -> bool {
    match (a, b) {
        (Some(x), Some(y)) => x.runtime_id@ == y.runtime_id@ && x.recursion_path@ == y.recursion_path@
            && x.role == y.role && x.entity == y.entity,
        (None, None) => true,
        _ => false,
    }
}

/// Copies an optional address.
pub fn copy_address(a: &Option<VsmAddress>) -> (r: Option<VsmAddress>)
    ensures
        same_address(r, *a),
{
    match a {
        Some(x) => Some(x.clone()),
        None => None,
    }
}

impl ProtocolMetadata {
    /// Creates metadata with a fresh correlation ID and default framework values.
    pub fn new() -> (r: Self)
        ensures
            fresh_metadata(r@),
            r.causation_id is None,
            r.deadline is None,
            r.priority == Priority::Normal,
            r.protocol_version.major == 0 && r.protocol_version.minor == 1,
            r.trace_context.fields@ == Map::<String, String>::empty(),
            r.source is None,
            r.destination is None,
    {
        ProtocolMetadata {
            correlation_id: CorrelationId::new(),
            causation_id: None,
            deadline: None,
            priority: Priority::Normal,
            protocol_version: ProtocolVersion::current(),
            trace_context: TraceContext::new(),
            source: None,
            destination: None,
        }
    }

    /// Creates a child metadata value whose causation points at this metadata.
    pub fn child(&self) -> (r: Self)
        ensures
            r.correlation_id@ == self.correlation_id@,
            r.causation_id matches Some(c) && c@ == self.correlation_id@,
            r.deadline == self.deadline,
            r.priority == self.priority,
            r.protocol_version == self.protocol_version,
            r.trace_context.fields@ == self.trace_context.fields@,
            same_address(r.source, self.source),
            same_address(r.destination, self.destination),
            child_of(r@, self@),
    {
        ProtocolMetadata {
            correlation_id: self.correlation_id.clone(),
            causation_id: Some(self.correlation_id.clone()),
            deadline: self.deadline,
            priority: self.priority,
            protocol_version: self.protocol_version,
            trace_context: self.trace_context.clone(),
            source: copy_address(&self.source),
            destination: copy_address(&self.destination),
        }
    }
}

/// Names a subsystem of a runtime as the source of a record: the address of `role`
/// at the runtime's recursion path, with no entity. Nothing else changes.
pub fn set_source(
    metadata: &mut ProtocolMetadata,
    runtime_id: &RuntimeId,
    recursion_path: &RecursionPath,
    role: SubsystemRole,
)
    ensures
        final(metadata).source matches Some(a) && a@ == (VsmAddressModel {
            runtime_id: runtime_id@,
            recursion_path: recursion_path@,
            role,
            entity: None,
        }),
        final(metadata).correlation_id == old(metadata).correlation_id,
        final(metadata).causation_id == old(metadata).causation_id,
        final(metadata).deadline == old(metadata).deadline,
        final(metadata).priority == old(metadata).priority,
        final(metadata).protocol_version == old(metadata).protocol_version,
        final(metadata).trace_context == old(metadata).trace_context,
        final(metadata).destination == old(metadata).destination,
        final(metadata)@ == with_source(old(metadata)@, runtime_id@, recursion_path@, role),
{
    metadata.source = Some(VsmAddress::new(runtime_id.clone(), recursion_path.clone(), role));
}

/// Metadata that names `source` as where the record comes from; nothing else changes.
pub open spec fn sourced(m: ProtocolMetadataModel, source: VsmAddressModel) -> ProtocolMetadataModel {
    ProtocolMetadataModel { source: Some(source), ..m }
}

/// Names `source` as where a record comes from.
pub fn set_source_address(metadata: &mut ProtocolMetadata, source: &VsmAddress)
    ensures
        final(metadata)@ == sourced(old(metadata)@, source@),
{
    metadata.source = Some(source.clone());
}

/// Metadata that names `destination` as where the record goes; nothing else changes.
pub open spec fn addressed(m: ProtocolMetadataModel, destination: VsmAddressModel) -> ProtocolMetadataModel {
    ProtocolMetadataModel { destination: Some(destination), ..m }
}

/// Names `destination` as where a record goes.
pub fn set_destination_address(metadata: &mut ProtocolMetadata, destination: &VsmAddress)
    ensures
        final(metadata)@ == addressed(old(metadata)@, destination@),
{
    metadata.destination = Some(destination.clone());
}

} // verus!

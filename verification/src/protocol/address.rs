//! Instance-scoped runtime addressing.

use vstd::prelude::*;

use crate::support::{fresh_uuid, is_uuid_v4_text};
use crate::text::{concat3, debug_quoted, debug_text, join_all, joined, texts};

verus! {

/// Identifier for one runtime instance.
#[derive(Debug, PartialEq, Eq, Hash)]
pub struct RuntimeId(String);

impl View for RuntimeId {
    type V = Seq<char>;

    closed spec fn view(&self) -> Seq<char> {
        self.0@
    }
}

impl Clone for RuntimeId {
    fn clone(&self) -> (r: Self)
        ensures
            r@ == self@,
    {
        RuntimeId(self.0.clone())
    }
}

impl RuntimeId {
    /// Creates a fresh runtime ID backed by a random UUID string.
    pub fn new() -> (r: Self)
        ensures
            is_uuid_v4_text(r@),
    {
        RuntimeId(fresh_uuid())
    }

    /// Creates a runtime ID from an existing string.
    pub fn from_string(value: String) -> (r: Self)
        ensures
            r@ == value@,
    {
        RuntimeId(value)
    }

    /// Returns the runtime ID as a string slice.
    pub fn as_str(&self) -> (r: &str)
        ensures
            r@ == self@,
    {
        self.0.as_str()
    }
}

/// Path from a root runtime to a nested runtime.
#[derive(Debug, PartialEq, Eq, Hash, Default)]
pub struct RecursionPath(Vec<String>);

impl View for RecursionPath {
    type V = Seq<Seq<char>>;

    closed spec fn view(&self) -> Seq<Seq<char>> {
        texts(self.0@)
    }
}

impl Clone for RecursionPath {
    fn clone(&self) -> (r: Self)
        ensures
            r@ == self@,
    {
        let segments = self.0.clone();
        assert(texts(segments@) =~= texts(self.0@));
        RecursionPath(segments)
    }
}

/// The label a path contributes to generated names: `root`, or its segments joined by `/`.
pub open spec fn path_label(path: Seq<Seq<char>>) -> Seq<char> {
    if path.len() == 0 {
        "root"@
    } else {
        joined(path, "/"@)
    }
}

impl RecursionPath {
    /// Returns the root recursion path.
    pub fn root() -> (r: Self)
        ensures
            r@ == Seq::<Seq<char>>::empty(),
    {
        let r = RecursionPath(Vec::new());
        assert(r@ =~= Seq::<Seq<char>>::empty());
        r
    }

    /// Creates a path from explicit path segments.
    pub fn from_segments(segments: Vec<String>) -> (r: Self)
        ensures
            r@ == texts(segments@),
    {
        RecursionPath(segments)
    }

    /// Returns a child path without mutating the current path.
    pub fn child(&self, segment: String) -> (r: Self)
        ensures
            r@ == self@.push(segment@),
    {
        let mut segments = self.0.clone();
        assert(texts(segments@) =~= texts(self.0@));
        let ghost seg = segment@;
        segments.push(segment);
        let r = RecursionPath(segments);
        assert(r@ =~= self@.push(seg));
        r
    }

    /// Returns `true` when this path addresses the root runtime.
    pub fn is_root(&self) -> (b: bool)
        ensures
            b == (self@.len() == 0),
    {
        self.0.len() == 0
    }

    /// Returns the path segments.
    pub fn segments(&self) -> (r: &[String])
        ensures
            texts(r@) == self@,
    {
        self.0.as_slice()
    }

    /// Returns `root` for the root path, else the segments joined by `/`.
    pub fn label(&self) -> (r: String)
        ensures
            r@ == path_label(self@),
    {
        if self.is_root() {
            "root".to_owned()
        } else {
            join_all(self.segments(), "/")
        }
    }
}

/// Runtime role addressed by framework metadata.
#[derive(Debug, PartialEq, Eq, Hash)]
pub enum SubsystemRole {
    System1,
    System2,
    System3,
    System3Star,
    System4,
    System5,
    Algedonic,
    TemporalVariety,
    Variety,
    Telemetry,
    EventSink,
    ReportSink,
    StateStore,
    Custom(String),
}

impl Clone for SubsystemRole {
    fn clone(&self) -> (r: Self)
        ensures
            r == *self,
    {
        match self {
            SubsystemRole::System1 => SubsystemRole::System1,
            SubsystemRole::System2 => SubsystemRole::System2,
            SubsystemRole::System3 => SubsystemRole::System3,
            SubsystemRole::System3Star => SubsystemRole::System3Star,
            SubsystemRole::System4 => SubsystemRole::System4,
            SubsystemRole::System5 => SubsystemRole::System5,
            SubsystemRole::Algedonic => SubsystemRole::Algedonic,
            SubsystemRole::TemporalVariety => SubsystemRole::TemporalVariety,
            SubsystemRole::Variety => SubsystemRole::Variety,
            SubsystemRole::Telemetry => SubsystemRole::Telemetry,
            SubsystemRole::EventSink => SubsystemRole::EventSink,
            SubsystemRole::ReportSink => SubsystemRole::ReportSink,
            SubsystemRole::StateStore => SubsystemRole::StateStore,
            SubsystemRole::Custom(s) => SubsystemRole::Custom(s.clone()),
        }
    }
}

/// The text that `{:?}` prints for a role.
pub open spec fn role_label(role: SubsystemRole) -> Seq<char> {
    match role {
        SubsystemRole::System1 => "System1"@,
        SubsystemRole::System2 => "System2"@,
        SubsystemRole::System3 => "System3"@,
        SubsystemRole::System3Star => "System3Star"@,
        SubsystemRole::System4 => "System4"@,
        SubsystemRole::System5 => "System5"@,
        SubsystemRole::Algedonic => "Algedonic"@,
        SubsystemRole::TemporalVariety => "TemporalVariety"@,
        SubsystemRole::Variety => "Variety"@,
        SubsystemRole::Telemetry => "Telemetry"@,
        SubsystemRole::EventSink => "EventSink"@,
        SubsystemRole::ReportSink => "ReportSink"@,
        SubsystemRole::StateStore => "StateStore"@,
        SubsystemRole::Custom(s) => "Custom("@ + debug_quoted(s@) + ")"@,
    }
}

impl SubsystemRole {
    /// Returns the text that `{:?}` prints for this role.
    pub fn label(&self) -> (r: String)
        ensures
            r@ == role_label(*self),
    {
        match self {
            SubsystemRole::System1 => "System1".to_owned(),
            SubsystemRole::System2 => "System2".to_owned(),
            SubsystemRole::System3 => "System3".to_owned(),
            SubsystemRole::System3Star => "System3Star".to_owned(),
            SubsystemRole::System4 => "System4".to_owned(),
            SubsystemRole::System5 => "System5".to_owned(),
            SubsystemRole::Algedonic => "Algedonic".to_owned(),
            SubsystemRole::TemporalVariety => "TemporalVariety".to_owned(),
            SubsystemRole::Variety => "Variety".to_owned(),
            SubsystemRole::Telemetry => "Telemetry".to_owned(),
            SubsystemRole::EventSink => "EventSink".to_owned(),
            SubsystemRole::ReportSink => "ReportSink".to_owned(),
            SubsystemRole::StateStore => "StateStore".to_owned(),
            SubsystemRole::Custom(s) => {
                let quoted = debug_text(s.as_str());
                concat3("Custom(", quoted.as_str(), ")")
            },
        }
    }
}

/// Framework address for a subsystem role and optional entity.
#[derive(Debug, PartialEq, Eq, Hash)]
pub struct VsmAddress {
    pub runtime_id: RuntimeId,
    pub recursion_path: RecursionPath,
    pub role: SubsystemRole,
    pub entity: Option<String>,
}

impl Clone for VsmAddress {
    fn clone(&self) -> (r: Self)
        ensures
            r.runtime_id@ == self.runtime_id@,
            r.recursion_path@ == self.recursion_path@,
            r.role == self.role,
            r.entity == self.entity,
    {
        VsmAddress {
            runtime_id: self.runtime_id.clone(),
            recursion_path: self.recursion_path.clone(),
            role: self.role.clone(),
            entity: match &self.entity {
                Some(e) => Some(e.clone()),
                None => None,
            },
        }
    }
}

impl VsmAddress {
    /// Creates an address for a subsystem role.
    pub fn new(runtime_id: RuntimeId, recursion_path: RecursionPath, role: SubsystemRole) -> (r: Self)
        ensures
            r.runtime_id == runtime_id,
            r.recursion_path == recursion_path,
            r.role == role,
            r.entity is None,
    {
        VsmAddress { runtime_id, recursion_path, role, entity: None }
    }

    /// Adds or replaces the entity component.
    pub fn with_entity(self, entity: String) -> (r: Self)
        ensures
            r.runtime_id == self.runtime_id,
            r.recursion_path == self.recursion_path,
            r.role == self.role,
            r.entity == Some(entity),
    {
        VsmAddress { entity: Some(entity), ..self }
    }
}

/// An address as plain values.
pub struct VsmAddressModel {
    pub runtime_id: Seq<char>,
    pub recursion_path: Seq<Seq<char>>,
    pub role: SubsystemRole,
    pub entity: Option<String>,
}

impl View for VsmAddress {
    type V = VsmAddressModel;

    open spec fn view(&self) -> VsmAddressModel {
        VsmAddressModel {
            runtime_id: self.runtime_id@,
            recursion_path: self.recursion_path@,
            role: self.role,
            entity: self.entity,
        }
    }
}

/// An optional address as plain values.
pub open spec fn opt_address(a: Option<VsmAddress>) -> Option<VsmAddressModel> {
    match a {
        Some(x) => Some(x@),
        None => None,
    }
}

} // verus!

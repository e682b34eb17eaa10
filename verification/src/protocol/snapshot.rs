//! Snapshot metadata keys.

use vstd::prelude::*;

use super::address::{path_label, role_label, RecursionPath, RuntimeId, SubsystemRole};

verus! {

/// Version marker for a typed snapshot payload.
#[derive(Debug, Clone, Copy, PartialEq, Eq, PartialOrd, Ord, Hash, Structural)]
pub struct SnapshotVersion(pub u64);

impl SnapshotVersion {
    /// Initial snapshot version, 1.
    pub fn initial() -> (r: Self)
        ensures
            r.0 == 1,
    {
        SnapshotVersion(1)
    }
}

impl Default for SnapshotVersion {
    fn default() -> (r: Self)
        ensures
            r.0 == 1,
    {
        SnapshotVersion::initial()
    }
}

/// Framework-owned snapshot key.
#[derive(Debug, PartialEq, Eq, Hash)]
pub struct SnapshotKey {
    pub runtime_id: RuntimeId,
    pub recursion_path: RecursionPath,
    pub role: SubsystemRole,
    pub entity: Option<String>,
}

/// `runtime:path:role:entity`, with `root` for the root path and `-` for no entity.
pub open spec fn stable_key_text(
    runtime_id: Seq<char>,
    path: Seq<Seq<char>>,
    role: SubsystemRole,
    entity: Option<String>,
) -> Seq<char> {
    runtime_id + ":"@ + path_label(path) + ":"@ + role_label(role) + ":"@ + match entity {
        Some(e) => e@,
        None => "-"@,
    }
}

impl SnapshotKey {
    /// Creates a key for a role-level snapshot.
    pub fn new(runtime_id: RuntimeId, recursion_path: RecursionPath, role: SubsystemRole) -> (r: Self)
        ensures
            r.runtime_id == runtime_id,
            r.recursion_path == recursion_path,
            r.role == role,
            r.entity is None,
    {
        SnapshotKey { runtime_id, recursion_path, role, entity: None }
    }

    /// Adds or replaces the entity component.
    pub fn with_entity(self, entity: String) -> (r: Self)
        ensures
            r.runtime_id == self.runtime_id,
            r.recursion_path == self.recursion_path,
            r.role == self.role,
            r.entity == Some(entity),
    {
        SnapshotKey { entity: Some(entity), ..self }
    }

    /// Returns a stable string suitable for logs and store diagnostics.
    pub fn stable_id(&self) -> (r: String)
        ensures
            r@ == stable_key_text(self.runtime_id@, self.recursion_path@, self.role, self.entity),
    {
        let mut out = self.runtime_id.as_str().to_owned();
        out.append(":");
        let path = self.recursion_path.label();
        out.append(path.as_str());
        out.append(":");
        let role = self.role.label();
        out.append(role.as_str());
        out.append(":");
        match &self.entity {
            Some(e) => out.append(e.as_str()),
            None => out.append("-"),
        }
        out
    }
}

} // verus!

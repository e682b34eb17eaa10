//! Instance-scoped runtime component directory.
//!
//! Components are keyed by their internal name and kept in name order, as an
//! ordered map keeps them.

use vstd::prelude::*;

use crate::dup::{dup_vec, view_seq, Duplicate};
use crate::protocol::address::{
    path_label, role_label, RecursionPath, RuntimeId, SubsystemRole, VsmAddress, VsmAddressModel,
};
use crate::text::{lemma_text_less_asymmetric, lemma_text_less_total, lemma_text_less_transitive, less_text, text_less};

verus! {

/// Lifecycle status of a registered runtime component.
#[derive(Debug, Clone, Copy, PartialEq, Eq, Structural)]
pub enum RuntimeComponentStatus {
    Running,
    Shutdown,
}

/// A registered runtime component.
pub struct RuntimeComponentSnapshot {
    pub internal_name: String,
    pub address: VsmAddress,
    pub status: RuntimeComponentStatus,
}

/// The plain-value view of `RuntimeComponent`.
pub struct RuntimeComponentModel {
    pub internal_name: Seq<char>,
    pub address: VsmAddressModel,
    pub status: RuntimeComponentStatus,
}

impl View for RuntimeComponentSnapshot {
    type V = RuntimeComponentModel;

    open spec fn view(&self) -> RuntimeComponentModel {
        RuntimeComponentModel { internal_name: self.internal_name@, address: self.address@, status: self.status }
    }
}

impl Duplicate for RuntimeComponentSnapshot {
    fn duplicate(&self) -> (r: Self) {
        RuntimeComponentSnapshot {
            internal_name: self.internal_name.clone(),
            address: self.address.clone(),
            status: self.status,
        }
    }
}

/// The directory's components, in name order.
pub struct RuntimeDirectorySnapshot {
    pub components: Vec<RuntimeComponentSnapshot>,
}

/// `runtime:path:role:entity`, the role as `{:?}` prints it.
pub open spec fn component_name(runtime_id: Seq<char>, path: Seq<Seq<char>>, role: SubsystemRole, entity: Seq<char>) -> Seq<char> {
    runtime_id + ":"@ + path_label(path) + ":"@ + role_label(role) + ":"@ + entity
}

/// The internal name of a component.
pub fn internal_component_name(
    runtime_id: &RuntimeId,
    recursion_path: &RecursionPath,
    address: &VsmAddress,
    entity: &str,
) -> (r: String)
    ensures
        r@ == component_name(runtime_id@, recursion_path@, address.role, entity@),
{
    let mut out = runtime_id.as_str().to_owned();
    out.append(":");
    let path = recursion_path.label();
    out.append(path.as_str());
    out.append(":");
    let role = address.role.label();
    out.append(role.as_str());
    out.append(":");
    out.append(entity);
    out
}

/// Components strictly ordered by name.
pub open spec fn sorted_by_name(s: Seq<RuntimeComponentModel>) -> bool {
    forall|i: int, j: int| 0 <= i < j < s.len() ==> text_less(#[trigger] s[i].internal_name, #[trigger] s[j].internal_name)
}

/// How many leading components sort before the name: where a component with that name
/// is, or goes.
pub open spec fn lower_bound(s: Seq<RuntimeComponentModel>, name: Seq<char>) -> int
    decreases s.len(),
{
    if s.len() == 0 {
        0
    } else if text_less(s[0].internal_name, name) {
        1 + lower_bound(s.skip(1), name)
    } else {
        0
    }
}

/// The directory after a component is registered under a name: it replaces the
/// component of that name, or is placed in name order.
pub open spec fn registered(s: Seq<RuntimeComponentModel>, c: RuntimeComponentModel) -> Seq<RuntimeComponentModel> {
    let p = lower_bound(s, c.internal_name);
    if p < s.len() && s[p].internal_name == c.internal_name {
        s.update(p, c)
    } else {
        s.insert(p, c)
    }
}

/// In a directory ordered by name, no two components share a name.
pub proof fn lemma_sorted_names_unique(s: Seq<RuntimeComponentModel>)
    requires
        sorted_by_name(s),
    ensures
        forall|i: int, j: int| 0 <= i < s.len() && 0 <= j < s.len() && i != j ==> s[i].internal_name != s[j].internal_name,
{
    assert forall|i: int, j: int| 0 <= i < s.len() && 0 <= j < s.len() && i != j implies s[i].internal_name
        != s[j].internal_name by {
        lemma_text_less_asymmetric(s[i].internal_name, s[j].internal_name);
        lemma_text_less_asymmetric(s[j].internal_name, s[i].internal_name);
    }
}

/// The component directory of one runtime.
pub struct RuntimeDirectory {
    components: Vec<RuntimeComponentSnapshot>,
}

impl RuntimeDirectory {
    /// Components in name order.
    pub closed spec fn components(&self) -> Seq<RuntimeComponentModel> {
        view_seq(self.components@)
    }

    /// Components are kept in strict name order.
    pub open spec fn wf(&self) -> bool {
        sorted_by_name(self.components())
    }

    /// An empty directory.
    pub fn new() -> (r: Self)
        ensures
            r.wf(),
            r.components().len() == 0,
    {
        let r = RuntimeDirectory { components: Vec::new() };
        assert(r.components() =~= Seq::<RuntimeComponentModel>::empty());
        r
    }

    /// Registers a component under its internal name, replacing any component of that name.
    pub fn register(
        &mut self,
        runtime_id: &RuntimeId,
        recursion_path: &RecursionPath,
        role: SubsystemRole,
        entity: String,
        status: RuntimeComponentStatus,
    )
        requires
            old(self).wf(),
        ensures
            final(self).wf(),
            final(self).components() == registered(
                old(self).components(),
                RuntimeComponentModel {
                    internal_name: component_name(runtime_id@, recursion_path@, role, entity@),
                    address: VsmAddressModel {
                        runtime_id: runtime_id@,
                        recursion_path: recursion_path@,
                        role,
                        entity: Some(entity),
                    },
                    status,
                },
            ),
    {
        let address = VsmAddress::new(runtime_id.clone(), recursion_path.clone(), role).with_entity(entity.clone());
        let name = internal_component_name(runtime_id, recursion_path, &address, entity.as_str());
        let entry = RuntimeComponentSnapshot { internal_name: name, address, status };
        let ghost s = self.components();
        let ghost e = entry@;
        let n = self.components.len();
        let mut i: usize = 0;
        assert(s.skip(0) =~= s);
        while i < n
            invariant
                n == self.components@.len(),
                s == self.components(),
                e == entry@,
                i <= n,
                lower_bound(s, e.internal_name) == i + lower_bound(s.skip(i as int), e.internal_name),
                forall|j: int| 0 <= j < i ==> text_less(#[trigger] s[j].internal_name, e.internal_name),
            ensures
                i == n || !text_less(s[i as int].internal_name, e.internal_name),
            decreases n - i,
        {
            assert(s[i as int] == self.components@[i as int]@);
            if !less_text(self.components[i].internal_name.as_str(), entry.internal_name.as_str()) {
                break;
            }
            assert(s.skip(i as int)[0] == s[i as int]);
            assert(s.skip(i as int).skip(1) =~= s.skip(i + 1));
            i = i + 1;
        }
        proof {
            if i < n {
                assert(s[i as int] == self.components@[i as int]@);
                assert(s.skip(i as int)[0] == s[i as int]);
            }
        }
        assert(lower_bound(s, e.internal_name) == i);
        if i < n && self.components[i].internal_name == entry.internal_name {
            assert(s[i as int] == self.components@[i as int]@);
            self.components.set(i, entry);
            assert(self.components() =~= s.update(i as int, e));
            assert forall|a: int, b: int| 0 <= a < b < self.components().len() implies text_less(
                #[trigger] self.components()[a].internal_name,
                #[trigger] self.components()[b].internal_name,
            ) by {
                assert(text_less(s[a].internal_name, s[b].internal_name));
            }
        } else {
            proof {
                if i < n {
                    assert(s[i as int] == self.components@[i as int]@);
                    lemma_text_less_total(s[i as int].internal_name, e.internal_name);
                }
            }
            self.components.insert(i, entry);
            assert(self.components() =~= s.insert(i as int, e));
            assert forall|a: int, b: int| 0 <= a < b < self.components().len() implies text_less(
                #[trigger] self.components()[a].internal_name,
                #[trigger] self.components()[b].internal_name,
            ) by {
                let c = self.components();
                if b < i {
                    assert(text_less(s[a].internal_name, s[b].internal_name));
                } else if b == i {
                    assert(text_less(s[a].internal_name, e.internal_name));
                } else if a == i {
                    assert(text_less(e.internal_name, s[i as int].internal_name));
                    if b - 1 > i {
                        assert(text_less(s[i as int].internal_name, s[b - 1].internal_name));
                        lemma_text_less_transitive(e.internal_name, s[i as int].internal_name, s[b - 1].internal_name);
                    }
                } else if a < i {
                    assert(text_less(s[a].internal_name, s[b - 1].internal_name));
                } else {
                    assert(text_less(s[a - 1].internal_name, s[b - 1].internal_name));
                }
            }
        }
    }

    /// Marks every component shut down.
    pub fn mark_all_shutdown(&mut self)
        requires
            old(self).wf(),
        ensures
            final(self).wf(),
            final(self).components() == old(self).components().map_values(
                |c: RuntimeComponentModel| RuntimeComponentModel { status: RuntimeComponentStatus::Shutdown, ..c },
            ),
    {
        let ghost start = self.components();
        let n = self.components.len();
        let mut i: usize = 0;
        while i < n
            invariant
                n == self.components@.len(),
                start.len() == n,
                i <= n,
                forall|k: int|
                    0 <= k < i ==> #[trigger] self.components()[k] == (RuntimeComponentModel {
                        status: RuntimeComponentStatus::Shutdown,
                        ..start[k]
                    }),
                forall|k: int| i <= k < n ==> #[trigger] self.components()[k] == start[k],
            decreases n - i,
        {
            assert(self.components()[i as int] == self.components@[i as int]@);
            let mut c = self.components[i].duplicate();
            c.status = RuntimeComponentStatus::Shutdown;
            let ghost before = self.components();
            let ghost cm = c@;
            self.components.set(i, c);
            assert(self.components() =~= before.update(i as int, cm));
            i = i + 1;
        }
        assert(self.components() =~= start.map_values(
            |c: RuntimeComponentModel| RuntimeComponentModel { status: RuntimeComponentStatus::Shutdown, ..c },
        ));
        assert forall|a: int, b: int| 0 <= a < b < self.components().len() implies text_less(
            #[trigger] self.components()[a].internal_name,
            #[trigger] self.components()[b].internal_name,
        ) by {
            assert(text_less(start[a].internal_name, start[b].internal_name));
        }
    }

    /// The components in name order.
    pub fn snapshot(&self) -> (r: RuntimeDirectorySnapshot)
        ensures
            view_seq(r.components@) == self.components(),
    {
        RuntimeDirectorySnapshot { components: dup_vec(&self.components) }
    }
}

} // verus!

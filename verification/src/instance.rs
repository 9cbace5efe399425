//! Instances, stores, and the linking step that creates an instance from a
//! module and a host function table.
//!
//! An instance owns one liveness flag. It starts `Healthy` and can move to
//! `Poisoned` only through the dispatcher's classification of a guest
//! fault; `Poisoned` is terminal. The store is exclusively owned by the
//! caller that created it and carries the host-side context — here, the
//! counters that record how often guest code was actually entered and how
//! often a host function was actually invoked.

use vstd::prelude::*;

use crate::bytes::copy_bytes;
use crate::guest::{ImportModel, Module, ModuleModel};
use crate::host::{HostTable, TableModel};
use crate::outcome::InstantiationError;

verus! {

/// Liveness of one instance: `Healthy` accepts calls; `Poisoned` is the
/// terminal state reached by a classified guest fault and rejects every
/// further call.
#[derive(Clone, Copy, Debug, PartialEq, Eq, Structural)]
pub enum Liveness {
    Healthy,
    Poisoned,
}

/// Host-side contextual state, exclusively owned by the caller that created
/// it and used by at most one in-flight call at a time. The counters record
/// actual executions: a call refused on a poisoned instance moves neither.
#[derive(Clone, Copy, Debug, PartialEq, Eq, Structural)]
pub struct Store {
    pub guest_invocations: u64,
    pub host_invocations: u64,
}

impl Store {
    /// Room to count one more invocation of each kind.
    pub open spec fn counters_ok(self) -> bool {
        self.guest_invocations < u64::MAX && self.host_invocations < u64::MAX
    }
}

/// A fresh store with both invocation counters at zero.
pub fn create_store() -> (s: Store)
    ensures
        s.guest_invocations == 0,
        s.host_invocations == 0,
{
    Store { guest_invocations: 0, host_invocations: 0 }
}

/// One execution context, bound to the store it was created with. Owns the
/// liveness flag the dispatcher consults before and transitions after every
/// call.
#[derive(Clone, Copy, Debug, PartialEq, Eq, Structural)]
pub struct Instance {
    pub liveness: Liveness,
}

/// The table satisfies one required import: it carries the name, with the
/// same arity the module expects.
pub open spec fn import_satisfied(imp: ImportModel, t: TableModel) -> bool {
    t.contains_name(imp.name) && t.entry_of(imp.name).arity == imp.arity
}

/// The table satisfies every import the module requires.
pub open spec fn linked(m: ModuleModel, t: TableModel) -> bool {
    forall|i: int| 0 <= i < m.imports.len() ==> import_satisfied(#[trigger] m.imports[i], t)
}

/// `n` is the name of the first required import the table does not carry at
/// all: the name a missing-import rejection reports.
pub open spec fn first_missing_import(m: ModuleModel, t: TableModel, n: Seq<u8>) -> bool {
    exists|j: int|
        0 <= j < m.imports.len() && !t.contains_name((#[trigger] m.imports[j]).name)
            && n == m.imports[j].name
            && (forall|k: int| 0 <= k < j ==> import_satisfied(m.imports[k], t))
}

/// `n` is the name of the first required import the table carries with a
/// different arity: the name a signature-mismatch rejection reports.
pub open spec fn first_signature_mismatch(m: ModuleModel, t: TableModel, n: Seq<u8>) -> bool {
    exists|j: int|
        0 <= j < m.imports.len() && t.contains_name((#[trigger] m.imports[j]).name)
            && t.entry_of(m.imports[j].name).arity != m.imports[j].arity
            && n == m.imports[j].name
            && (forall|k: int| 0 <= k < j ==> import_satisfied(m.imports[k], t))
}

/// Instantiates a module against a host function table: links every
/// required import, and produces a healthy instance exactly when the table
/// carries each import under the expected signature. The first import that
/// fails to link decides the error: a name the table lacks is reported as
/// missing, a name carried with a different arity as a signature mismatch.
#[verifier::loop_isolation(false)]
pub fn instantiate(module: &Module, table: &HostTable) -> (r: Result<
    Instance,
    InstantiationError,
>)
    requires
        table@.wf(),
    ensures
        match r {
            Ok(inst) => linked(module@, table@) && inst.liveness is Healthy,
            Err(InstantiationError::MissingImport(n)) => !linked(module@, table@)
                && first_missing_import(module@, table@, n@),
            Err(InstantiationError::SignatureMismatch(n)) => !linked(module@, table@)
                && first_signature_mismatch(module@, table@, n@),
        },
{
    let mut j: usize = 0;
    while j < module.imports.len()
        invariant
            0 <= j <= module.imports.len(),
            forall|k: int| 0 <= k < j ==> import_satisfied(#[trigger] module@.imports[k], table@),
        decreases module.imports.len() - j,
    {
        let imp = &module.imports[j];
        match table.find(&imp.name) {
            None => {
                let msg = copy_bytes(&imp.name);
                proof {
                    assert(!table@.contains_name(module@.imports[j as int].name));
                    assert(first_missing_import(module@, table@, msg@));
                    assert(!import_satisfied(module@.imports[j as int], table@));
                }
                return Err(InstantiationError::MissingImport(msg));
            }
            Some(i) => {
                proof {
                    crate::host::lemma_table_lookup(table@, i as int);
                    assert(table@.entry_of(module@.imports[j as int].name)
                        == table@.entries[i as int]);
                }
                if table.entries[i].arity != imp.arity {
                    let msg = copy_bytes(&imp.name);
                    proof {
                        assert(first_signature_mismatch(module@, table@, msg@));
                        assert(!import_satisfied(module@.imports[j as int], table@));
                    }
                    return Err(InstantiationError::SignatureMismatch(msg));
                }
                proof {
                    assert(import_satisfied(module@.imports[j as int], table@));
                }
            }
        }
        j += 1;
    }
    Ok(Instance { liveness: Liveness::Healthy })
}

} // verus!

//! The guest module: its required imports, its exported functions, and the
//! closed set of behaviours an exported function can have at the boundary.
//!
//! A `Module` is an immutable, validated unit: the constructor rejects
//! duplicate names and export bodies that call a host function the module
//! never declared as an import. Once built, a module is shared read-only
//! across all instantiations.

use vstd::prelude::*;

use crate::bytes::bytes_eq;
use crate::outcome::CompileError;

verus! {

/// What one guest-exported function does when entered, as observed at the
/// call boundary.
#[derive(Clone, Debug, PartialEq, Eq)]
pub enum GuestStep {
    /// Completes normally with a value.
    ReturnValue(u64),
    /// Explicitly signals a declared, recoverable failure.
    SignalError(Vec<u8>),
    /// Invokes the named host function and reports its result.
    CallHost(Vec<u8>),
    /// Reaches an abort/unreachable condition: a guest fault.
    Abort,
}

/// Mathematical model of a `GuestStep`.
pub ghost enum StepModel {
    ReturnValue(u64),
    SignalError(Seq<u8>),
    CallHost(Seq<u8>),
    Abort,
}

impl View for GuestStep {
    type V = StepModel;

    open spec fn view(&self) -> StepModel {
        match self {
            GuestStep::ReturnValue(v) => StepModel::ReturnValue(*v),
            GuestStep::SignalError(m) => StepModel::SignalError(m@),
            GuestStep::CallHost(n) => StepModel::CallHost(n@),
            GuestStep::Abort => StepModel::Abort,
        }
    }
}

/// One host function the module requires: a name and the arity of the
/// signature it expects.
#[derive(Clone, Debug, PartialEq, Eq)]
pub struct ImportSig {
    pub name: Vec<u8>,
    pub arity: u64,
}

/// Mathematical model of an `ImportSig`.
pub ghost struct ImportModel {
    pub name: Seq<u8>,
    pub arity: u64,
}

impl View for ImportSig {
    type V = ImportModel;

    open spec fn view(&self) -> ImportModel {
        ImportModel { name: self.name@, arity: self.arity }
    }
}

/// One guest-exported function: its name and its behaviour at the boundary.
#[derive(Clone, Debug, PartialEq, Eq)]
pub struct GuestExport {
    pub name: Vec<u8>,
    pub body: GuestStep,
}

/// Mathematical model of a `GuestExport`.
pub ghost struct ExportModel {
    pub name: Seq<u8>,
    pub body: StepModel,
}

impl View for GuestExport {
    type V = ExportModel;

    open spec fn view(&self) -> ExportModel {
        ExportModel { name: self.name@, body: self.body@ }
    }
}

/// Mathematical model of a validated module.
pub ghost struct ModuleModel {
    pub imports: Seq<ImportModel>,
    pub exports: Seq<ExportModel>,
}

/// A name occurs among these imports.
pub open spec fn imports_contain(imports: Seq<ImportModel>, name: Seq<u8>) -> bool {
    exists|i: int| 0 <= i < imports.len() && #[trigger] imports[i].name == name
}

/// The body at this index calls a host function that no import declares.
pub open spec fn unresolved_call_at(
    imports: Seq<ImportModel>,
    exports: Seq<ExportModel>,
    i: int,
) -> bool {
    exports[i].body matches StepModel::CallHost(n) && !imports_contain(imports, n)
}

impl ModuleModel {
    /// Import names are pairwise distinct: no name repeats an earlier one.
    pub open spec fn imports_unique(self) -> bool {
        forall|j: int| 0 <= j < self.imports.len() ==> !(#[trigger] import_dup_at(self.imports, j))
    }

    /// Export names are pairwise distinct: no name repeats an earlier one.
    pub open spec fn exports_unique(self) -> bool {
        forall|j: int| 0 <= j < self.exports.len() ==> !(#[trigger] export_dup_at(self.exports, j))
    }

    /// Every host call in an export body names a declared import.
    pub open spec fn calls_resolved(self) -> bool {
        forall|i: int| 0 <= i < self.exports.len() ==> !unresolved_call_at(self.imports, self.exports, i)
    }

    /// A validated module: unique names on both lists, all host calls
    /// resolved against the import list.
    pub open spec fn wf(self) -> bool {
        self.imports_unique() && self.exports_unique() && self.calls_resolved()
    }

    /// Some export carries this name.
    pub open spec fn has_export(self, name: Seq<u8>) -> bool {
        exists|i: int| 0 <= i < self.exports.len() && #[trigger] self.exports[i].name == name
    }

    /// The body exported under this name (meaningful when `has_export`
    /// holds and the module is well formed).
    pub open spec fn body_of(self, name: Seq<u8>) -> StepModel {
        self.exports[choose|i: int|
            0 <= i < self.exports.len() && #[trigger] self.exports[i].name == name].body
    }
}

/// With unique export names, looking a name up lands on the one export that
/// carries it: the export at any index is the export of its own name.
pub proof fn lemma_export_lookup(m: ModuleModel, i: int)
    requires
        m.exports_unique(),
        0 <= i < m.exports.len(),
    ensures
        m.has_export(m.exports[i].name),
        m.body_of(m.exports[i].name) == m.exports[i].body,
{
    assert(m.has_export(m.exports[i].name));
    let c = choose|j: int|
        0 <= j < m.exports.len() && #[trigger] m.exports[j].name == m.exports[i].name;
    if c < i {
        assert(export_dup_at(m.exports, i));
        assert(!export_dup_at(m.exports, i));
    }
    if i < c {
        assert(export_dup_at(m.exports, c));
        assert(!export_dup_at(m.exports, c));
    }
}

/// An immutable, validated unit of guest code, produced once and shared
/// read-only across all instantiations.
#[derive(Clone, Debug, PartialEq, Eq)]
pub struct Module {
    pub imports: Vec<ImportSig>,
    pub exports: Vec<GuestExport>,
}

impl View for Module {
    type V = ModuleModel;

    open spec fn view(&self) -> ModuleModel {
        ModuleModel {
            imports: self.imports@.map_values(|s: ImportSig| s@),
            exports: self.exports@.map_values(|e: GuestExport| e@),
        }
    }
}

/// A name at index `j` repeats one at an earlier index.
pub open spec fn import_dup_at(imports: Seq<ImportModel>, j: int) -> bool {
    exists|i: int| 0 <= i < j && (#[trigger] imports[i].name) == imports[j].name
}

/// A name at index `j` repeats one at an earlier index.
pub open spec fn export_dup_at(exports: Seq<ExportModel>, j: int) -> bool {
    exists|i: int| 0 <= i < j && (#[trigger] exports[i].name) == exports[j].name
}

/// `n` is the name at the first index whose import name repeats an earlier
/// one: the name a duplicate-import rejection reports.
pub open spec fn first_duplicate_import(imports: Seq<ImportModel>, n: Seq<u8>) -> bool {
    exists|j: int|
        0 <= j < imports.len() && #[trigger] import_dup_at(imports, j) && n == imports[j].name
            && (forall|k: int| 0 <= k < j ==> !import_dup_at(imports, k))
}

/// `n` is the name at the first index whose export name repeats an earlier
/// one: the name a duplicate-export rejection reports.
pub open spec fn first_duplicate_export(exports: Seq<ExportModel>, n: Seq<u8>) -> bool {
    exists|j: int|
        0 <= j < exports.len() && #[trigger] export_dup_at(exports, j) && n == exports[j].name
            && (forall|k: int| 0 <= k < j ==> !export_dup_at(exports, k))
}

/// `n` is the host-function name of the first export body that calls a host
/// function no import declares: the name an unresolved-call rejection
/// reports.
pub open spec fn first_unresolved_call(
    imports: Seq<ImportModel>,
    exports: Seq<ExportModel>,
    n: Seq<u8>,
) -> bool {
    exists|j: int|
        0 <= j < exports.len() && #[trigger] unresolved_call_at(imports, exports, j)
            && (exports[j].body matches StepModel::CallHost(c) && n == c)
            && (forall|k: int| 0 <= k < j ==> !unresolved_call_at(imports, exports, k))
}

/// The index of the import carrying this name, if any.
fn find_import(imports: &Vec<ImportSig>, name: &Vec<u8>) -> (r: Option<usize>)
    ensures
        match r {
            Some(i) => i < imports@.len() && imports@[i as int].name@ == name@,
            None => forall|k: int| 0 <= k < imports@.len() ==> (#[trigger] imports@[k].name@) != name@,
        },
{
    let mut i: usize = 0;
    while i < imports.len()
        invariant
            0 <= i <= imports.len(),
            forall|j: int| 0 <= j < i ==> (#[trigger] imports@[j].name@) != name@,
        decreases imports.len() - i,
    {
        if bytes_eq(&imports[i].name, name) {
            return Some(i);
        }
        i += 1;
    }
    None
}

impl Module {
    /// Validates and assembles a module, playing the engine's role at the
    /// level of this model: the result is `Ok` exactly when import names
    /// are unique, export names are unique, and every host call in an
    /// export body names a declared import. Each error reports the first
    /// violation in list order, and a violation of an earlier check masks
    /// the later checks.
    #[verifier::loop_isolation(false)]
    pub fn new(imports: Vec<ImportSig>, exports: Vec<GuestExport>) -> (r: Result<
        Module,
        CompileError,
    >)
        ensures
            ({
                let m = ModuleModel {
                    imports: imports@.map_values(|s: ImportSig| s@),
                    exports: exports@.map_values(|e: GuestExport| e@),
                };
                match r {
                    Ok(module) => m.wf() && module@ == m,
                    Err(CompileError::DuplicateImport(n)) => first_duplicate_import(
                        m.imports,
                        n@,
                    ),
                    Err(CompileError::DuplicateExport(n)) => m.imports_unique()
                        && first_duplicate_export(m.exports, n@),
                    Err(CompileError::UnresolvedHostCall(n)) => m.imports_unique()
                        && m.exports_unique() && first_unresolved_call(m.imports, m.exports, n@),
                }
            }),
    {
        let ghost m = ModuleModel {
            imports: imports@.map_values(|s: ImportSig| s@),
            exports: exports@.map_values(|e: GuestExport| e@),
        };

        // Import names must be pairwise distinct.
        let mut j: usize = 0;
        while j < imports.len()
            invariant
                0 <= j <= imports.len(),
                m.imports.len() == imports@.len(),
                forall|a: int| 0 <= a < imports@.len() ==> #[trigger] m.imports[a].name == imports@[a].name@,
                forall|k: int| 0 <= k < j ==> !import_dup_at(m.imports, k),
            decreases imports.len() - j,
        {
            let mut i: usize = 0;
            while i < j
                invariant
                    0 <= i <= j < imports.len(),
                    m.imports.len() == imports@.len(),
                    forall|a: int| 0 <= a < imports@.len() ==> #[trigger] m.imports[a].name == imports@[a].name@,
                    forall|k: int| 0 <= k < j ==> !import_dup_at(m.imports, k),
                    forall|k: int| 0 <= k < i ==> #[trigger] m.imports[k].name != m.imports[j as int].name,
                decreases j - i,
            {
                if bytes_eq(&imports[i].name, &imports[j].name) {
                    let msg = crate::bytes::copy_bytes(&imports[j].name);
                    proof {
                        assert(m.imports[i as int].name == m.imports[j as int].name);
                        assert(import_dup_at(m.imports, j as int));
                        assert(first_duplicate_import(m.imports, msg@));
                    }
                    return Err(CompileError::DuplicateImport(msg));
                }
                i += 1;
            }
            j += 1;
        }

        // Export names must be pairwise distinct.
        let mut j: usize = 0;
        while j < exports.len()
            invariant
                0 <= j <= exports.len(),
                m.exports.len() == exports@.len(),
                forall|a: int| 0 <= a < exports@.len() ==> #[trigger] m.exports[a].name == exports@[a].name@,
                forall|k: int| 0 <= k < m.imports.len() ==> !import_dup_at(m.imports, k),
                forall|k: int| 0 <= k < j ==> !export_dup_at(m.exports, k),
            decreases exports.len() - j,
        {
            let mut i: usize = 0;
            while i < j
                invariant
                    0 <= i <= j < exports.len(),
                    m.exports.len() == exports@.len(),
                    forall|a: int| 0 <= a < exports@.len() ==> #[trigger] m.exports[a].name == exports@[a].name@,
                    forall|k: int| 0 <= k < m.imports.len() ==> !import_dup_at(m.imports, k),
                    forall|k: int| 0 <= k < j ==> !export_dup_at(m.exports, k),
                    forall|k: int| 0 <= k < i ==> #[trigger] m.exports[k].name != m.exports[j as int].name,
                decreases j - i,
            {
                if bytes_eq(&exports[i].name, &exports[j].name) {
                    let msg = crate::bytes::copy_bytes(&exports[j].name);
                    proof {
                        assert(m.exports[i as int].name == m.exports[j as int].name);
                        assert(export_dup_at(m.exports, j as int));
                        assert(first_duplicate_export(m.exports, msg@));
                    }
                    return Err(CompileError::DuplicateExport(msg));
                }
                i += 1;
            }
            j += 1;
        }

        // Every host call in an export body must name a declared import.
        let mut j: usize = 0;
        while j < exports.len()
            invariant
                0 <= j <= exports.len(),
                m.imports.len() == imports@.len(),
                m.exports.len() == exports@.len(),
                forall|a: int| 0 <= a < imports@.len() ==> #[trigger] m.imports[a].name == imports@[a].name@,
                forall|a: int| 0 <= a < exports@.len() ==> #[trigger] m.exports[a] == exports@[a]@,
                forall|k: int| 0 <= k < m.imports.len() ==> !import_dup_at(m.imports, k),
                forall|k: int| 0 <= k < m.exports.len() ==> !export_dup_at(m.exports, k),
                forall|k: int| 0 <= k < j ==> !unresolved_call_at(m.imports, m.exports, k),
            decreases exports.len() - j,
        {
            match &exports[j].body {
                GuestStep::CallHost(target) => {
                    let hit = find_import(&imports, target);
                    match hit {
                        Some(i) => {
                            proof {
                                assert(m.imports[i as int].name == target@);
                                assert(imports_contain(m.imports, target@));
                            }
                        }
                        None => {
                            let msg = crate::bytes::copy_bytes(target);
                            proof {
                                assert forall|a: int|
                                    0 <= a < m.imports.len() implies (#[trigger] m.imports[a].name)
                                    != target@ by {
                                    assert(imports@[a].name@ != target@);
                                }
                                assert(!imports_contain(m.imports, target@));
                                assert(m.exports[j as int].body matches StepModel::CallHost(c) && c == target@);
                                assert(unresolved_call_at(m.imports, m.exports, j as int));
                                assert(first_unresolved_call(m.imports, m.exports, msg@));
                            }
                            return Err(CompileError::UnresolvedHostCall(msg));
                        }
                    }
                }
                _ => {
                    proof {
                        assert(!unresolved_call_at(m.imports, m.exports, j as int));
                    }
                }
            }
            j += 1;
        }

        let result = Module { imports, exports };
        proof {
            assert(result@ == m);
        }
        Ok(result)
    }

    /// The index of the export carrying this name, if any.
    pub fn find_export(&self, name: &Vec<u8>) -> (r: Option<usize>)
        ensures
            match r {
                Some(i) => i < self@.exports.len() && self@.exports[i as int].name == name@,
                None => !self@.has_export(name@),
            },
    {
        let mut i: usize = 0;
        while i < self.exports.len()
            invariant
                0 <= i <= self.exports.len(),
                self@.exports.len() == self.exports@.len(),
                forall|j: int| 0 <= j < i ==> #[trigger] self@.exports[j].name != name@,
            decreases self.exports.len() - i,
        {
            if bytes_eq(&self.exports[i].name, name) {
                return Some(i);
            }
            i += 1;
        }
        None
    }
}

} // verus!

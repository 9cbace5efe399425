//! Setup-time behaviour: byte helpers, table construction, module
//! validation, and the linking step with each of its rejections.

use hostbridge::bytes::{bytes_eq, copy_bytes};
use hostbridge::guest::{GuestExport, GuestStep, ImportSig, Module};
use hostbridge::host::{HostBehavior, HostTable};
use hostbridge::instance::{create_store, instantiate, Liveness};
use hostbridge::outcome::{CompileError, InstantiationError};

fn name(s: &str) -> Vec<u8> {
    s.as_bytes().to_vec()
}

#[test]
fn bytes_eq_compares_contents() {
    assert!(bytes_eq(&name("alpha"), &name("alpha")));
    assert!(!bytes_eq(&name("alpha"), &name("beta")));
    assert!(!bytes_eq(&name("alpha"), &name("alph")));
    assert!(bytes_eq(&name(""), &name("")));
}

#[test]
fn copy_bytes_preserves_contents() {
    let original = name("payload");
    let copy = copy_bytes(&original);
    assert_eq!(copy, original);
    assert_eq!(copy_bytes(&name("")), name(""));
}

#[test]
fn table_insert_rejects_duplicate_names() {
    let mut t = HostTable::new();
    assert!(t.insert(name("f"), 0, HostBehavior::PureSuccess(1)));
    assert!(!t.insert(name("f"), 2, HostBehavior::PureSuccess(2)));
    assert!(t.insert(name("g"), 0, HostBehavior::PureSuccess(3)));
    assert_eq!(t.entries.len(), 2);
    assert_eq!(t.entries[0].arity, 0);
}

#[test]
fn table_find_locates_entries() {
    let mut t = HostTable::new();
    assert!(t.insert(name("f"), 0, HostBehavior::PureSuccess(1)));
    assert!(t.insert(name("g"), 1, HostBehavior::PureSuccess(2)));
    assert_eq!(t.find(&name("f")), Some(0));
    assert_eq!(t.find(&name("g")), Some(1));
    assert_eq!(t.find(&name("h")), None);
}

#[test]
fn module_rejects_duplicate_import() {
    let imports = vec![
        ImportSig { name: name("f"), arity: 0 },
        ImportSig { name: name("f"), arity: 1 },
    ];
    let r = Module::new(imports, Vec::new());
    assert_eq!(r.unwrap_err(), CompileError::DuplicateImport(name("f")));
}

#[test]
fn module_rejects_duplicate_export() {
    let exports = vec![
        GuestExport { name: name("e"), body: GuestStep::ReturnValue(1) },
        GuestExport { name: name("e"), body: GuestStep::Abort },
    ];
    let r = Module::new(Vec::new(), exports);
    assert_eq!(r.unwrap_err(), CompileError::DuplicateExport(name("e")));
}

#[test]
fn module_rejects_unresolved_host_call() {
    let imports = vec![ImportSig { name: name("f"), arity: 0 }];
    let exports = vec![
        GuestExport { name: name("e"), body: GuestStep::CallHost(name("missing")) },
    ];
    let r = Module::new(imports, exports);
    assert_eq!(r.unwrap_err(), CompileError::UnresolvedHostCall(name("missing")));
}

#[test]
fn module_reports_first_violation() {
    // A duplicate import masks the later checks.
    let imports = vec![
        ImportSig { name: name("a"), arity: 0 },
        ImportSig { name: name("a"), arity: 0 },
    ];
    let exports = vec![
        GuestExport { name: name("e"), body: GuestStep::CallHost(name("missing")) },
        GuestExport { name: name("e"), body: GuestStep::Abort },
    ];
    let r = Module::new(imports, exports);
    assert_eq!(r.unwrap_err(), CompileError::DuplicateImport(name("a")));
}

#[test]
fn module_find_export_locates_exports() {
    let exports = vec![
        GuestExport { name: name("one"), body: GuestStep::ReturnValue(1) },
        GuestExport { name: name("two"), body: GuestStep::ReturnValue(2) },
    ];
    let module = Module::new(Vec::new(), exports).expect("module must validate");
    assert_eq!(module.find_export(&name("one")), Some(0));
    assert_eq!(module.find_export(&name("two")), Some(1));
    assert_eq!(module.find_export(&name("three")), None);
}

#[test]
fn instantiate_links_and_starts_healthy() {
    let mut t = HostTable::new();
    assert!(t.insert(name("f"), 2, HostBehavior::PureSuccess(1)));
    let imports = vec![ImportSig { name: name("f"), arity: 2 }];
    let module = Module::new(imports, Vec::new()).expect("module must validate");
    let instance = instantiate(&module, &t).expect("linking must succeed");
    assert_eq!(instance.liveness, Liveness::Healthy);
}

#[test]
fn instantiate_reports_missing_import() {
    let mut t = HostTable::new();
    assert!(t.insert(name("f"), 0, HostBehavior::PureSuccess(1)));
    let imports = vec![
        ImportSig { name: name("f"), arity: 0 },
        ImportSig { name: name("absent"), arity: 0 },
    ];
    let module = Module::new(imports, Vec::new()).expect("module must validate");
    let r = instantiate(&module, &t);
    assert_eq!(r.unwrap_err(), InstantiationError::MissingImport(name("absent")));
}

#[test]
fn instantiate_reports_signature_mismatch() {
    let mut t = HostTable::new();
    assert!(t.insert(name("f"), 1, HostBehavior::PureSuccess(1)));
    let imports = vec![ImportSig { name: name("f"), arity: 3 }];
    let module = Module::new(imports, Vec::new()).expect("module must validate");
    let r = instantiate(&module, &t);
    assert_eq!(r.unwrap_err(), InstantiationError::SignatureMismatch(name("f")));
}

#[test]
fn create_store_starts_at_zero() {
    let s = create_store();
    assert_eq!(s.guest_invocations, 0);
    assert_eq!(s.host_invocations, 0);
}

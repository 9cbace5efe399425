//! End-to-end behaviour of the call bridge: outcome classification,
//! poisoning, containment of guest faults, and escalation of host faults.

use hostbridge::guest::{GuestExport, GuestStep, ImportSig, Module};
use hostbridge::host::{HostBehavior, HostTable};
use hostbridge::instance::{create_store, instantiate, Instance, Liveness, Store};
use hostbridge::outcome::{CallOutcome, HostFatal, TrapKind};

fn name(s: &str) -> Vec<u8> {
    s.as_bytes().to_vec()
}

fn demo_table() -> HostTable {
    let mut t = HostTable::new();
    assert!(t.insert(name("return_ok"), 0, HostBehavior::PureSuccess(0)));
    assert!(t.insert(
        name("return_err"),
        0,
        HostBehavior::DeclarableFailure(name("host error")),
    ));
    assert!(t.insert(name("panic"), 1, HostBehavior::FatalFailure(name("host panicking"))));
    t
}

fn demo_module() -> Module {
    let imports = vec![
        ImportSig { name: name("return_ok"), arity: 0 },
        ImportSig { name: name("return_err"), arity: 0 },
        ImportSig { name: name("panic"), arity: 1 },
    ];
    let exports = vec![
        GuestExport { name: name("return_ok"), body: GuestStep::CallHost(name("return_ok")) },
        GuestExport { name: name("return_err"), body: GuestStep::CallHost(name("return_err")) },
        GuestExport { name: name("trigger_guest_fault"), body: GuestStep::Abort },
        GuestExport { name: name("trigger_host_fault"), body: GuestStep::CallHost(name("panic")) },
    ];
    Module::new(imports, exports).expect("demo module must validate")
}

fn fresh_pair(module: &Module, table: &HostTable) -> (Instance, Store) {
    let instance = instantiate(module, table).expect("demo module must link");
    (instance, create_store())
}

fn call(
    instance: &mut Instance,
    module: &Module,
    table: &HostTable,
    store: &mut Store,
    export: &str,
) -> Result<CallOutcome, HostFatal> {
    let args: Vec<u64> = Vec::new();
    instance.call(module, table, store, &name(export), &args)
}

#[test]
fn healthy_normal_call_stays_healthy() {
    let table = demo_table();
    let module = demo_module();
    let (mut i, mut store) = fresh_pair(&module, &table);
    let r = call(&mut i, &module, &table, &mut store, "return_ok");
    assert_eq!(r, Ok(CallOutcome::Success(0)));
    assert_eq!(i.liveness, Liveness::Healthy);
}

#[test]
fn guest_fault_poisons_and_freezes_counters() {
    let table = demo_table();
    let module = demo_module();
    let (mut i, mut store) = fresh_pair(&module, &table);

    let r = call(&mut i, &module, &table, &mut store, "trigger_guest_fault");
    assert_eq!(r, Ok(CallOutcome::Trap(TrapKind::GuestFault)));
    assert_eq!(i.liveness, Liveness::Poisoned);
    assert_eq!(store.guest_invocations, 1);

    // Rejected calls must not execute guest code: the counter stays put.
    let r2 = call(&mut i, &module, &table, &mut store, "return_ok");
    assert_eq!(r2, Ok(CallOutcome::Trap(TrapKind::CannotEnter)));
    assert_eq!(store.guest_invocations, 1);
    assert_eq!(store.host_invocations, 0);
    assert_eq!(i.liveness, Liveness::Poisoned);
}

#[test]
fn trap_kinds_are_distinguishable() {
    let table = demo_table();
    let module = demo_module();
    let (mut i, mut store) = fresh_pair(&module, &table);

    let first = call(&mut i, &module, &table, &mut store, "trigger_guest_fault");
    let second = call(&mut i, &module, &table, &mut store, "trigger_guest_fault");
    assert_eq!(first, Ok(CallOutcome::Trap(TrapKind::GuestFault)));
    assert_eq!(second, Ok(CallOutcome::Trap(TrapKind::CannotEnter)));
    assert_ne!(first, second);
}

#[test]
fn host_fatal_is_not_an_outcome_value() {
    let table = demo_table();
    let module = demo_module();
    let (mut i, mut store) = fresh_pair(&module, &table);

    let r = call(&mut i, &module, &table, &mut store, "trigger_host_fault");
    match r {
        Err(fault) => assert_eq!(fault.message, name("host panicking")),
        Ok(_) => panic!("a fatal host failure must never classify as a CallOutcome"),
    }
}

#[test]
fn instances_are_isolated() {
    let table = demo_table();
    let module = demo_module();
    let (mut i1, mut s1) = fresh_pair(&module, &table);
    let (mut i2, mut s2) = fresh_pair(&module, &table);

    let r = call(&mut i1, &module, &table, &mut s1, "trigger_guest_fault");
    assert_eq!(r, Ok(CallOutcome::Trap(TrapKind::GuestFault)));
    assert_eq!(i1.liveness, Liveness::Poisoned);

    // Poisoning the first instance leaves the second callable.
    assert_eq!(i2.liveness, Liveness::Healthy);
    let r2 = call(&mut i2, &module, &table, &mut s2, "return_ok");
    assert_eq!(r2, Ok(CallOutcome::Success(0)));
    assert_eq!(i2.liveness, Liveness::Healthy);
}

#[test]
fn scenario_success_then_fault_then_rejection() {
    let table = demo_table();
    let module = demo_module();
    let (mut i1, mut store) = fresh_pair(&module, &table);

    let r1 = call(&mut i1, &module, &table, &mut store, "return_ok");
    assert_eq!(r1, Ok(CallOutcome::Success(0)));

    let r2 = call(&mut i1, &module, &table, &mut store, "trigger_guest_fault");
    assert_eq!(r2, Ok(CallOutcome::Trap(TrapKind::GuestFault)));
    assert_eq!(i1.liveness, Liveness::Poisoned);

    let r3 = call(&mut i1, &module, &table, &mut store, "return_ok");
    assert_eq!(r3, Ok(CallOutcome::Trap(TrapKind::CannotEnter)));
}

#[test]
fn scenario_declared_failure_is_recoverable() {
    let table = demo_table();
    let module = demo_module();
    let (mut i2, mut store) = fresh_pair(&module, &table);

    let r = call(&mut i2, &module, &table, &mut store, "return_err");
    assert_eq!(r, Ok(CallOutcome::GuestError(name("host error"))));
    assert_eq!(i2.liveness, Liveness::Healthy);

    let r2 = call(&mut i2, &module, &table, &mut store, "return_ok");
    assert_eq!(r2, Ok(CallOutcome::Success(0)));
}

#[test]
fn scenario_host_fatal_requires_fresh_pair() {
    let table = demo_table();
    let module = demo_module();
    let (mut i3, mut store) = fresh_pair(&module, &table);

    let r = call(&mut i3, &module, &table, &mut store, "trigger_host_fault");
    assert!(matches!(r, Err(_)));

    // No supported resume: continue on a fresh store/instance pair.
    let (mut i4, mut s4) = fresh_pair(&module, &table);
    let r2 = call(&mut i4, &module, &table, &mut s4, "return_ok");
    assert_eq!(r2, Ok(CallOutcome::Success(0)));
}

#[test]
fn guest_own_signal_is_guest_error() {
    let table = demo_table();
    let imports = vec![ImportSig { name: name("return_ok"), arity: 0 }];
    let exports = vec![
        GuestExport { name: name("speak"), body: GuestStep::ReturnValue(9) },
        GuestExport { name: name("complain"), body: GuestStep::SignalError(name("guest")) },
    ];
    let module = Module::new(imports, exports).expect("module must validate");
    let (mut i, mut store) = fresh_pair(&module, &table);

    let r = call(&mut i, &module, &table, &mut store, "speak");
    assert_eq!(r, Ok(CallOutcome::Success(9)));
    let r2 = call(&mut i, &module, &table, &mut store, "complain");
    assert_eq!(r2, Ok(CallOutcome::GuestError(name("guest"))));
    assert_eq!(i.liveness, Liveness::Healthy);
    assert_eq!(store.guest_invocations, 2);
    assert_eq!(store.host_invocations, 0);
}

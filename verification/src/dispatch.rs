//! The call dispatcher: the sole path by which a call crosses the
//! host/guest boundary, and the classification it applies to every outcome.
//!
//! The central design rule is the containment asymmetry between the two
//! kinds of fatal failure. A guest fault is contained: it poisons the one
//! instance it occurred in and is reported as an ordinary outcome value, so
//! the embedder keeps running and other instances stay usable. A fatal host
//! failure is uncontained: host code runs with the host's own privileges,
//! so its failure cannot be downgraded to a per-instance trap — it escapes
//! classification altogether, as the error position of the dispatcher's
//! result, and ends that whole call chain.

use vstd::prelude::*;

use crate::bytes::copy_bytes;
use crate::guest::{lemma_export_lookup, GuestStep, Module, StepModel};
use crate::host::{lemma_table_lookup, BehaviorModel, HostBehavior, HostTable, TableModel};
use crate::instance::{import_satisfied, linked, Instance, Liveness, Store};
use crate::outcome::{result_model, CallOutcome, HostFatal, OutcomeModel, TrapKind};

verus! {

/// Classification of one call entering a healthy instance: how the invoked
/// export's behaviour, together with the host function table, is reported.
/// The error position is the uncontained fatal host failure; everything
/// contained is an outcome value.
pub open spec fn healthy_result(body: StepModel, t: TableModel) -> Result<OutcomeModel, Seq<u8>> {
    match body {
        StepModel::ReturnValue(v) => Ok(OutcomeModel::Success(v)),
        StepModel::SignalError(msg) => Ok(OutcomeModel::GuestError(msg)),
        StepModel::Abort => Ok(OutcomeModel::Trap(TrapKind::GuestFault)),
        StepModel::CallHost(n) => match t.behavior_of(n) {
            BehaviorModel::PureSuccess(v) => Ok(OutcomeModel::Success(v)),
            BehaviorModel::DeclarableFailure(msg) => Ok(OutcomeModel::GuestError(msg)),
            BehaviorModel::FatalFailure(msg) => Err(msg),
        },
    }
}

/// The classification was a guest fault: the one case that poisons.
pub open spec fn faults(body: StepModel, t: TableModel) -> bool {
    healthy_result(body, t) matches Ok(OutcomeModel::Trap(TrapKind::GuestFault))
}

/// What the dispatcher reports for one call on an instance whose liveness
/// is `l`: a poisoned instance refuses with `Trap(CannotEnter)` before any
/// code runs; a healthy one executes the export and classifies the result.
pub open spec fn dispatch_result(l: Liveness, body: StepModel, t: TableModel) -> Result<
    OutcomeModel,
    Seq<u8>,
> {
    if l is Poisoned {
        Ok(OutcomeModel::Trap(TrapKind::CannotEnter))
    } else {
        healthy_result(body, t)
    }
}

/// Liveness after the call: `Poisoned` is terminal, a classified guest
/// fault poisons, and nothing else — a fatal host failure in particular
/// bypasses this transition and leaves the flag as it found it.
pub open spec fn next_liveness(l: Liveness, body: StepModel, t: TableModel) -> Liveness {
    if l is Poisoned || faults(body, t) {
        Liveness::Poisoned
    } else {
        Liveness::Healthy
    }
}

/// How often the call enters guest code: once from a healthy instance,
/// never from a poisoned one.
pub open spec fn guest_delta(l: Liveness) -> int {
    if l is Healthy {
        1
    } else {
        0
    }
}

/// How often the call invokes a host function: once when a healthy
/// instance's export calls into the host, never otherwise.
pub open spec fn host_delta(l: Liveness, body: StepModel) -> int {
    if l is Healthy && body is CallHost {
        1
    } else {
        0
    }
}

impl Instance {
    /// Dispatches one call of the guest-exported function `name` on this
    /// instance: the sole path across the host/guest boundary.
    ///
    /// A poisoned instance refuses immediately with `Trap(CannotEnter)`,
    /// touching neither guest code nor the store. Otherwise the export
    /// runs and its result is classified: a normal return is `Success`, a
    /// declared failure (the guest's own or one returned by a host
    /// function it called) is `GuestError` and leaves the instance
    /// healthy, a guest fault poisons this instance — and only this
    /// instance — and is reported as `Trap(GuestFault)`, and a fatal host
    /// failure is returned in the error position, never as an outcome
    /// value; the flag is then left as classification found it, and the
    /// caller must discard this store and instance rather than resume
    /// them. `args` crosses the boundary unread: an export's modelled
    /// behaviour is closed.
    pub fn call(
        &mut self,
        module: &Module,
        table: &HostTable,
        store: &mut Store,
        name: &Vec<u8>,
        args: &Vec<u64>,
    ) -> (r: Result<CallOutcome, HostFatal>)
        requires
            module@.wf(),
            table@.wf(),
            linked(module@, table@),
            module@.has_export(name@),
            old(store).counters_ok(),
        ensures
            result_model(r) == dispatch_result(
                old(self).liveness,
                module@.body_of(name@),
                table@,
            ),
            final(self).liveness == next_liveness(
                old(self).liveness,
                module@.body_of(name@),
                table@,
            ),
            final(store).guest_invocations == old(store).guest_invocations + guest_delta(
                old(self).liveness,
            ),
            final(store).host_invocations == old(store).host_invocations + host_delta(
                old(self).liveness,
                module@.body_of(name@),
            ),
    {
        match self.liveness {
            Liveness::Poisoned => Ok(CallOutcome::Trap(TrapKind::CannotEnter)),
            Liveness::Healthy => {
                store.guest_invocations = store.guest_invocations + 1;
                let found = module.find_export(name);
                match found {
                    None => vstd::pervasive::unreached(),
                    Some(i) => {
                        proof {
                            lemma_export_lookup(module@, i as int);
                            assert(module@.body_of(name@) == module@.exports[i as int].body);
                        }
                        match &module.exports[i].body {
                            GuestStep::ReturnValue(v) => Ok(CallOutcome::Success(*v)),
                            GuestStep::SignalError(msg) => Ok(
                                CallOutcome::GuestError(copy_bytes(msg)),
                            ),
                            GuestStep::Abort => {
                                self.liveness = Liveness::Poisoned;
                                Ok(CallOutcome::Trap(TrapKind::GuestFault))
                            }
                            GuestStep::CallHost(target) => {
                                store.host_invocations = store.host_invocations + 1;
                                let entry = table.find(target);
                                match entry {
                                    None => {
                                        proof {
                                            assert(!crate::guest::unresolved_call_at(
                                                module@.imports,
                                                module@.exports,
                                                i as int,
                                            ));
                                            assert(crate::guest::imports_contain(
                                                module@.imports,
                                                target@,
                                            ));
                                            let a = choose|a: int|
                                                0 <= a < module@.imports.len()
                                                    && #[trigger] module@.imports[a].name
                                                    == target@;
                                            assert(import_satisfied(
                                                module@.imports[a],
                                                table@,
                                            ));
                                            assert(false);
                                        }
                                        vstd::pervasive::unreached()
                                    }
                                    Some(ti) => {
                                        proof {
                                            lemma_table_lookup(table@, ti as int);
                                            assert(table@.behavior_of(target@)
                                                == table@.entries[ti as int].behavior);
                                        }
                                        match &table.entries[ti].behavior {
                                            HostBehavior::PureSuccess(v) => Ok(
                                                CallOutcome::Success(*v),
                                            ),
                                            HostBehavior::DeclarableFailure(msg) => Ok(
                                                CallOutcome::GuestError(copy_bytes(msg)),
                                            ),
                                            HostBehavior::FatalFailure(msg) => Err(
                                                HostFatal { message: copy_bytes(msg) },
                                            ),
                                        }
                                    }
                                }
                            }
                        }
                    }
                }
            }
        }
    }
}

} // verus!

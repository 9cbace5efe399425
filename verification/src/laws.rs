//! The bridge's governing properties, stated once over the dispatch model
//! and proved for every module, table, and liveness state.
//!
//! Each law is a consequence of the dispatcher's contract alone; they are
//! written out so a reader sees what the classification guarantees without
//! deriving it.

use vstd::prelude::*;

use crate::dispatch::{
    dispatch_result, faults, guest_delta, healthy_result, host_delta, next_liveness,
};
use crate::guest::StepModel;
use crate::host::{BehaviorModel, TableModel};
use crate::instance::Liveness;
use crate::outcome::{OutcomeModel, TrapKind};

verus! {

/// The call completes normally: the export returns a value of its own, or
/// reports the value of a pure-success host function.
pub open spec fn completes_normally(body: StepModel, t: TableModel) -> bool {
    healthy_result(body, t) matches Ok(OutcomeModel::Success(_))
}

/// The call reports a declared failure: the guest's own signalled error, or
/// the declared error of a host function it invoked.
pub open spec fn declares_failure(body: StepModel, t: TableModel) -> bool {
    healthy_result(body, t) matches Ok(OutcomeModel::GuestError(_))
}

/// A call on a healthy instance that completes normally returns `Success`
/// and leaves the instance healthy.
pub proof fn lemma_normal_completion_preserves_health(
    l: Liveness,
    body: StepModel,
    t: TableModel,
)
    requires
        l is Healthy,
        completes_normally(body, t),
    ensures
        dispatch_result(l, body, t) matches Ok(o) && o is Success,
        next_liveness(l, body, t) is Healthy,
{
}

/// A call on a healthy instance that reports a declared failure returns
/// `GuestError` and leaves the instance healthy: a declared failure is
/// recoverable and never poisons.
pub proof fn lemma_declared_failure_keeps_healthy(l: Liveness, body: StepModel, t: TableModel)
    requires
        l is Healthy,
        declares_failure(body, t),
    ensures
        dispatch_result(l, body, t) matches Ok(o) && o is GuestError,
        next_liveness(l, body, t) is Healthy,
{
}

/// A guest fault on a healthy instance is reported as `Trap(GuestFault)`
/// and poisons that instance.
pub proof fn lemma_guest_fault_poisons(l: Liveness, body: StepModel, t: TableModel)
    requires
        l is Healthy,
        faults(body, t),
    ensures
        dispatch_result(l, body, t) matches Ok(OutcomeModel::Trap(TrapKind::GuestFault)),
        next_liveness(l, body, t) is Poisoned,
{
}

/// A poisoned instance is terminal: whatever export a later call names, it
/// is refused with `Trap(CannotEnter)`, the instance stays poisoned, and
/// neither guest code nor any host function runs — the invocation counters
/// cannot move.
pub proof fn lemma_poisoned_rejects(body: StepModel, t: TableModel)
    ensures
        dispatch_result(Liveness::Poisoned, body, t) matches Ok(
            OutcomeModel::Trap(TrapKind::CannotEnter),
        ),
        next_liveness(Liveness::Poisoned, body, t) is Poisoned,
        guest_delta(Liveness::Poisoned) == 0,
        host_delta(Liveness::Poisoned, body) == 0,
{
}

/// Across two successive calls on the same instance, the call that caused
/// the fault and any call after it report distinguishable outcome values:
/// `Trap(GuestFault)` for the fault itself, `Trap(CannotEnter)` ever after.
pub proof fn lemma_fault_then_rejection_distinguishable(
    l: Liveness,
    body1: StepModel,
    body2: StepModel,
    t: TableModel,
)
    requires
        l is Healthy,
        faults(body1, t),
    ensures
        dispatch_result(l, body1, t) matches Ok(OutcomeModel::Trap(TrapKind::GuestFault)),
        dispatch_result(next_liveness(l, body1, t), body2, t) matches Ok(
            OutcomeModel::Trap(TrapKind::CannotEnter),
        ),
        dispatch_result(l, body1, t) != dispatch_result(next_liveness(l, body1, t), body2, t),
{
}

/// A fatal host failure is never observable as an outcome value, and
/// nothing else escapes classification: the dispatcher's result is in the
/// error position exactly when a healthy instance's export invoked a host
/// function whose contract is fatal. Classification then leaves the
/// liveness flag as it found it; the caller must discard the store and the
/// instance.
pub proof fn lemma_host_fatal_never_an_outcome(l: Liveness, body: StepModel, t: TableModel)
    ensures
        dispatch_result(l, body, t) is Err <==> (l is Healthy && (body matches StepModel::CallHost(
            n,
        ) && t.behavior_of(n) is FatalFailure)),
        dispatch_result(l, body, t) is Err ==> next_liveness(l, body, t) == l,
{
}

} // verus!

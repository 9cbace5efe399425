//! Outcomes of a cross-boundary call, and the setup-time errors.
//!
//! A contained failure is an ordinary `CallOutcome` value. A fatal host
//! failure is deliberately *not* a `CallOutcome` variant: it is a separate
//! fault object, carried in the error position of the dispatcher's result,
//! so that callers cannot handle it as if it were a recoverable outcome.

use vstd::prelude::*;

verus! {

/// Why a call was classified as a trap: the guest faulted during this very
/// call, or the instance was already poisoned and the call was refused
/// before any guest code ran.
#[derive(Clone, Copy, Debug, PartialEq, Eq, Structural)]
pub enum TrapKind {
    GuestFault,
    CannotEnter,
}

/// The result of one cross-boundary invocation, as reported to the caller.
///
/// `GuestError` is a declared, recoverable failure: the guest (or a host
/// function it called) signalled an error the caller can branch on, and the
/// instance stays healthy. `Trap` is a contained guest-side fatal condition.
#[derive(Clone, Debug, PartialEq, Eq)]
pub enum CallOutcome {
    Success(u64),
    GuestError(Vec<u8>),
    Trap(TrapKind),
}

/// Mathematical model of a `CallOutcome`: messages as byte sequences.
pub ghost enum OutcomeModel {
    Success(u64),
    GuestError(Seq<u8>),
    Trap(TrapKind),
}

impl View for CallOutcome {
    type V = OutcomeModel;

    open spec fn view(&self) -> OutcomeModel {
        match self {
            CallOutcome::Success(v) => OutcomeModel::Success(*v),
            CallOutcome::GuestError(m) => OutcomeModel::GuestError(m@),
            CallOutcome::Trap(k) => OutcomeModel::Trap(*k),
        }
    }
}

/// An uncontained, fatal host-side failure.
///
/// This value never appears inside a `CallOutcome`; the dispatcher returns
/// it in the error position of its result, and an embedder must treat it as
/// the abnormal end of that whole call chain, discarding the store and the
/// instance rather than resuming them.
#[derive(Clone, Debug, PartialEq, Eq)]
pub struct HostFatal {
    pub message: Vec<u8>,
}

impl View for HostFatal {
    type V = Seq<u8>;

    open spec fn view(&self) -> Seq<u8> {
        self.message@
    }
}

/// The dispatcher's result, seen through the views of both positions.
pub open spec fn result_model(r: Result<CallOutcome, HostFatal>) -> Result<OutcomeModel, Seq<u8>> {
    match r {
        Ok(o) => Ok(o@),
        Err(f) => Err(f@),
    }
}

/// Validation failure while assembling a module: the module is rejected and
/// no instance can be made from it.
#[derive(Clone, Debug, PartialEq, Eq)]
pub enum CompileError {
    DuplicateImport(Vec<u8>),
    DuplicateExport(Vec<u8>),
    UnresolvedHostCall(Vec<u8>),
}

/// Linking failure while instantiating a module against a host function
/// table: a required import is missing from the table, or is present with a
/// different signature.
#[derive(Clone, Debug, PartialEq, Eq)]
pub enum InstantiationError {
    MissingImport(Vec<u8>),
    SignatureMismatch(Vec<u8>),
}

} // verus!

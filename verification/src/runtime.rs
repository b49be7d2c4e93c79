//! Entry-point execution and the exit-code protocol.
//!
//! The embedder looks up the instantiated module's `_start` export and
//! invokes it; what it observes of that attempt comes back here as a
//! [`StartEvent`], and this module alone decides what the attempt means:
//! the process exit code the guest chose, or the host-level failure that
//! aborts the run. A guest that called `proc_exit` terminates the process
//! inside the trampoline and no event is ever observed here.

use vstd::prelude::*;

use crate::abi::truncate_to_i32;

verus! {

/// The engine's view of the value `_start` returned.
#[derive(Clone, Debug, PartialEq, Eq)]
pub enum GuestReturn {
    /// `_start` returned no value.
    Undefined,
    /// `_start` returned a number; the engine hands over its integer
    /// value.
    Number(i64),
    /// `_start` returned a value of some other shape; the engine's name
    /// for its type.
    Other(String),
}

/// What the embedder observed of one attempt to run `_start`.
#[derive(Clone, Debug, PartialEq, Eq)]
pub enum StartEvent {
    /// The module's exports hold no `_start` function; no guest code ran.
    NoEntryPoint,
    /// Guest execution faulted; the engine's description of the trap.
    Trapped(String),
    /// `_start` ran to completion and returned.
    Returned(GuestReturn),
}

/// A host-level failure: the run aborts and the failure is surfaced to
/// the process caller with a nonzero exit code, never treated as success.
#[derive(Clone, Debug, PartialEq, Eq)]
pub enum RunError {
    /// The supplied bytes are not a valid WebAssembly module.
    CompileError(String),
    /// Import or export resolution failed while instantiating.
    InstantiationError(String),
    /// The module exports no `_start`.
    MissingEntryPoint,
    /// `_start` returned a value of a shape that cannot become an exit
    /// code; the observed type's name.
    UnsupportedExitValue(String),
    /// Guest execution faulted.
    Trapped(String),
}

/// The phases of one entry-point execution.
#[derive(Clone, Debug, PartialEq, Eq)]
pub enum ExecState {
    /// The entry point has not been invoked.
    NotStarted,
    /// Guest code is executing.
    Running,
    /// The guest finished and chose this exit code.
    Exited(i32),
    /// Guest execution faulted.
    Trapped(String),
}

/// What a completed `_start` means: no value is success with exit code 0;
/// a number is the guest's chosen exit code, truncated to the signed
/// 32-bit range exactly as native process exit codes are; any other shape
/// is a failure naming the observed type.
pub open spec fn interpret_return_spec(ret: GuestReturn) -> Result<i32, RunError> {
    match ret {
        GuestReturn::Undefined => Ok(0),
        GuestReturn::Number(n) => Ok(n as i32),
        GuestReturn::Other(t) => Err(RunError::UnsupportedExitValue(t)),
    }
}

/// What a whole start attempt means: a missing entry point and a trap are
/// distinct failures; a completed return is read by
/// [`interpret_return_spec`].
pub open spec fn run_spec(ev: StartEvent) -> Result<i32, RunError> {
    match ev {
        StartEvent::NoEntryPoint => Err(RunError::MissingEntryPoint),
        StartEvent::Trapped(m) => Err(RunError::Trapped(m)),
        StartEvent::Returned(ret) => interpret_return_spec(ret),
    }
}

/// Interprets the completion of `_start`.
pub fn interpret_return(ret: &GuestReturn) -> (r: Result<i32, RunError>)
    ensures
        r == interpret_return_spec(*ret),
{
    match ret {
        GuestReturn::Undefined => Ok(0),
        GuestReturn::Number(n) => Ok(truncate_to_i32(*n)),
        GuestReturn::Other(t) => Err(RunError::UnsupportedExitValue(t.clone())),
    }
}

/// Concludes a run from what the embedder observed of the start attempt:
/// the exit code the guest chose, or the host-level failure that aborts
/// the run.
pub fn run(ev: &StartEvent) -> (r: Result<i32, RunError>)
    ensures
        r == run_spec(*ev),
{
    match ev {
        StartEvent::NoEntryPoint => Err(RunError::MissingEntryPoint),
        StartEvent::Trapped(m) => Err(RunError::Trapped(m.clone())),
        StartEvent::Returned(ret) => interpret_return(ret),
    }
}

/// The state the machine `NotStarted -> Running -> {Exited, Trapped}`
/// ends in for a given start attempt: a missing entry point never leaves
/// `NotStarted`, a trap ends `Trapped`, a completed numeric or empty
/// return ends `Exited`, and an unsupported return value aborts the run
/// while the machine still stands in `Running`.
pub open spec fn final_state_spec(ev: StartEvent) -> ExecState {
    match ev {
        StartEvent::NoEntryPoint => ExecState::NotStarted,
        StartEvent::Trapped(m) => ExecState::Trapped(m),
        StartEvent::Returned(GuestReturn::Undefined) => ExecState::Exited(0),
        StartEvent::Returned(GuestReturn::Number(n)) => ExecState::Exited(n as i32),
        StartEvent::Returned(GuestReturn::Other(_)) => ExecState::Running,
    }
}

/// Computes the state a start attempt ends in.
pub fn final_state(ev: &StartEvent) -> (s: ExecState)
    ensures
        s == final_state_spec(*ev),
{
    match ev {
        StartEvent::NoEntryPoint => ExecState::NotStarted,
        StartEvent::Trapped(m) => ExecState::Trapped(m.clone()),
        StartEvent::Returned(GuestReturn::Undefined) => ExecState::Exited(0),
        StartEvent::Returned(GuestReturn::Number(n)) => ExecState::Exited(truncate_to_i32(*n)),
        StartEvent::Returned(GuestReturn::Other(_)) => ExecState::Running,
    }
}

/// A run succeeds with exit code `c` exactly when its state machine ends
/// in `Exited(c)`, and a guest trap is reported as the distinct `Trapped`
/// outcome, never as success.
pub proof fn lemma_run_matches_final_state(ev: StartEvent)
    ensures
        run_spec(ev) is Ok <==> final_state_spec(ev) is Exited,
        run_spec(ev) matches Ok(c) ==> final_state_spec(ev) == ExecState::Exited(c),
        run_spec(ev) matches Err(e) ==> !(e is Trapped) || final_state_spec(ev)
            == ExecState::Trapped(e->Trapped_0),
        final_state_spec(ev) is Trapped ==> (run_spec(ev) matches Err(e) && e is Trapped),
{
}

} // verus!

//! The driver: the host-facing surface of a run.
//!
//! The host edge parses the command line, reads the module bytes and
//! drives the engine; everything it observes of the start attempt comes
//! back as a [`StartEvent`], and the functions here decide the outcome:
//! the run's result and the process exit code it maps to.

use vstd::prelude::*;

use crate::runtime::RunError;
use crate::runtime::StartEvent;
use crate::runtime::run_spec;

verus! {

/// The parsed command line: the path of the WebAssembly binary to run,
/// and the arguments after a `--` separator, which are forwarded to the
/// module as guest argv.
#[derive(Clone, Debug, PartialEq, Eq)]
pub struct Cli {
    /// Path of the WebAssembly binary.
    pub wasmfile_path: String,
    /// Arguments after `--`, passed to the wasm module.
    pub wasm_args: Vec<String>,
}

impl Cli {
    /// Assembles a parsed command line.
    pub fn new(wasmfile_path: String, wasm_args: Vec<String>) -> (c: Cli)
        ensures
            c.wasmfile_path == wasmfile_path,
            c.wasm_args == wasm_args,
    {
        Cli { wasmfile_path, wasm_args }
    }
}

/// The process exit code of a finished run: the guest-chosen code on
/// success, and the fixed nonzero code 1 for any host-level failure.
pub open spec fn process_exit_code_spec(r: Result<i32, RunError>) -> i32 {
    match r {
        Ok(c) => c,
        Err(_) => 1,
    }
}

/// Maps a run's result to the process exit code.
pub fn process_exit_code(r: &Result<i32, RunError>) -> (code: i32)
    ensures
        code == process_exit_code_spec(*r),
{
    match r {
        Ok(c) => *c,
        Err(_) => 1,
    }
}

/// Concludes the run from what the engine reported of the start attempt.
/// Command-line parsing and the engine itself live at the host edge; the
/// decision is delegated here.
pub fn run(ev: &StartEvent) -> (r: Result<i32, RunError>)
    ensures
        r == run_spec(*ev),
{
    crate::runtime::run(ev)
}

/// Every host-level failure surfaces as a nonzero process exit code; in
/// particular a module lacking an exported `_start` fails with
/// `MissingEntryPoint` and never exits 0.
pub proof fn lemma_host_failures_nonzero(r: Result<i32, RunError>)
    ensures
        run_spec(StartEvent::NoEntryPoint) == Err::<i32, RunError>(RunError::MissingEntryPoint),
        r is Err ==> process_exit_code_spec(r) != 0,
{
}

/// The exit-code protocol: a module whose `_start` returns no value exits
/// 0, and one whose `_start` returns an integer exits with that integer
/// truncated to the signed 32-bit range — the truncation is congruent
/// modulo 2^32 and lands in the signed 32-bit range.
pub proof fn lemma_exit_code_protocol(n: i64)
    ensures
        process_exit_code_spec(
            run_spec(StartEvent::Returned(crate::runtime::GuestReturn::Undefined)),
        ) == 0,
        process_exit_code_spec(
            run_spec(StartEvent::Returned(crate::runtime::GuestReturn::Number(n))),
        ) == n as i32,
        -0x8000_0000 <= n as i32 <= 0x7fff_ffff,
        ((n as i32) - n) % 0x1_0000_0000 == 0,
{
    crate::abi::lemma_truncate_congruent(n);
}

} // verus!

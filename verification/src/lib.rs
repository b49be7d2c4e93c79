//! A host core for running a WebAssembly module as a standalone program.
//!
//! An embedded execution engine owns the module and its linear memory; a
//! syscall-semantics library implements the WASI preview1 operations. This
//! crate is the bridge between the two: it declares the import surface the
//! module may ask for, marshals the numeric guest calling convention,
//! dispatches each import call to the syscall library against a fresh view
//! of the guest memory, and turns the entry point's result into a process
//! exit code.

pub mod abi;
pub mod context;
pub mod driver;
pub mod imports;
pub mod preview1;
pub mod runtime;
pub mod trampoline;

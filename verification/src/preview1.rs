//! Trusted bindings to the WASI syscall-semantics library.
//!
//! Every syscall the guest can reach is implemented by `wasi_common`
//! against real descriptors and clocks; each operation there is
//! asynchronous, so each binding here drives it to completion on the
//! persistent executor before returning. A binding hands the operation a
//! fresh memory view over exactly the caller's buffer and reports either
//! the WASI errno the operation returned (0 is success) or `Err` when the
//! operation trapped instead of producing an errno, as it does for an
//! out-of-bounds or misaligned guest pointer.

use vstd::prelude::*;

use wasi_common::snapshots::preview_1::wasi_snapshot_preview1 as preview1;

verus! {

/// The process-wide WASI context of `wasi_common`: descriptor tables,
/// argv, environment and preopened directories.
#[verifier::external_type_specification]
#[verifier::external_body]
pub struct ExWasiCtx(wasi_common::WasiCtx);

/// The persistent task executor of `tokio` that drives the asynchronous
/// syscall operations.
#[verifier::external_type_specification]
#[verifier::external_body]
pub struct ExTokioRuntime(tokio::runtime::Runtime);

/// Relies on `tokio::runtime::Runtime::new`: builds the one executor a
/// host keeps for all of its syscalls; `Err` when the executor cannot be
/// set up.
#[verifier::external_body]
pub(crate) fn new_executor() -> (r: Result<tokio::runtime::Runtime, ()>) {
    match tokio::runtime::Runtime::new() {
        Ok(rt) => Ok(rt),
        Err(_) => Err(()),
    }
}

/// Relies on `wasi_common`'s generated preview1 `args_get`: returns the
/// errno the operation reports, or `Err` when it traps; the memory view it
/// is given covers the buffer alone, whose length it cannot change.
#[verifier::external_body]
pub(crate) fn call_args_get(
    executor: &tokio::runtime::Runtime,
    ctx: &mut wasi_common::WasiCtx,
    mem: &mut Vec<u8>,
    a0: i32,
    a1: i32,
) -> (r: Result<i32, ()>)
    ensures
        final(mem)@.len() == old(mem)@.len(),
{
    let mut gm = wiggle::GuestMemory::Unshared(mem.as_mut_slice());
    match executor.block_on(preview1::args_get(ctx, &mut gm, a0, a1)) {
        Ok(e) => Ok(e),
        Err(_) => Err(()),
    }
}

/// Relies on `wasi_common`'s generated preview1 `args_sizes_get`: returns the
/// errno the operation reports, or `Err` when it traps; the memory view it
/// is given covers the buffer alone, whose length it cannot change.
#[verifier::external_body]
pub(crate) fn call_args_sizes_get(
    executor: &tokio::runtime::Runtime,
    ctx: &mut wasi_common::WasiCtx,
    mem: &mut Vec<u8>,
    a0: i32,
    a1: i32,
) -> (r: Result<i32, ()>)
    ensures
        final(mem)@.len() == old(mem)@.len(),
{
    let mut gm = wiggle::GuestMemory::Unshared(mem.as_mut_slice());
    match executor.block_on(preview1::args_sizes_get(ctx, &mut gm, a0, a1)) {
        Ok(e) => Ok(e),
        Err(_) => Err(()),
    }
}

/// Relies on `wasi_common`'s generated preview1 `environ_get`: returns the
/// errno the operation reports, or `Err` when it traps; the memory view it
/// is given covers the buffer alone, whose length it cannot change.
#[verifier::external_body]
pub(crate) fn call_environ_get(
    executor: &tokio::runtime::Runtime,
    ctx: &mut wasi_common::WasiCtx,
    mem: &mut Vec<u8>,
    a0: i32,
    a1: i32,
) -> (r: Result<i32, ()>)
    ensures
        final(mem)@.len() == old(mem)@.len(),
{
    let mut gm = wiggle::GuestMemory::Unshared(mem.as_mut_slice());
    match executor.block_on(preview1::environ_get(ctx, &mut gm, a0, a1)) {
        Ok(e) => Ok(e),
        Err(_) => Err(()),
    }
}

/// Relies on `wasi_common`'s generated preview1 `environ_sizes_get`: returns the
/// errno the operation reports, or `Err` when it traps; the memory view it
/// is given covers the buffer alone, whose length it cannot change.
#[verifier::external_body]
pub(crate) fn call_environ_sizes_get(
    executor: &tokio::runtime::Runtime,
    ctx: &mut wasi_common::WasiCtx,
    mem: &mut Vec<u8>,
    a0: i32,
    a1: i32,
) -> (r: Result<i32, ()>)
    ensures
        final(mem)@.len() == old(mem)@.len(),
{
    let mut gm = wiggle::GuestMemory::Unshared(mem.as_mut_slice());
    match executor.block_on(preview1::environ_sizes_get(ctx, &mut gm, a0, a1)) {
        Ok(e) => Ok(e),
        Err(_) => Err(()),
    }
}

/// Relies on `wasi_common`'s generated preview1 `fd_prestat_get`: returns the
/// errno the operation reports, or `Err` when it traps; the memory view it
/// is given covers the buffer alone, whose length it cannot change.
#[verifier::external_body]
pub(crate) fn call_fd_prestat_get(
    executor: &tokio::runtime::Runtime,
    ctx: &mut wasi_common::WasiCtx,
    mem: &mut Vec<u8>,
    a0: i32,
    a1: i32,
) -> (r: Result<i32, ()>)
    ensures
        final(mem)@.len() == old(mem)@.len(),
{
    let mut gm = wiggle::GuestMemory::Unshared(mem.as_mut_slice());
    match executor.block_on(preview1::fd_prestat_get(ctx, &mut gm, a0, a1)) {
        Ok(e) => Ok(e),
        Err(_) => Err(()),
    }
}

/// Relies on `wasi_common`'s generated preview1 `fd_prestat_dir_name`: returns the
/// errno the operation reports, or `Err` when it traps; the memory view it
/// is given covers the buffer alone, whose length it cannot change.
#[verifier::external_body]
pub(crate) fn call_fd_prestat_dir_name(
    executor: &tokio::runtime::Runtime,
    ctx: &mut wasi_common::WasiCtx,
    mem: &mut Vec<u8>,
    a0: i32,
    a1: i32,
    a2: i32,
) -> (r: Result<i32, ()>)
    ensures
        final(mem)@.len() == old(mem)@.len(),
{
    let mut gm = wiggle::GuestMemory::Unshared(mem.as_mut_slice());
    match executor.block_on(preview1::fd_prestat_dir_name(ctx, &mut gm, a0, a1, a2)) {
        Ok(e) => Ok(e),
        Err(_) => Err(()),
    }
}

/// Relies on `wasi_common`'s generated preview1 `path_open`: returns the
/// errno the operation reports, or `Err` when it traps; the memory view it
/// is given covers the buffer alone, whose length it cannot change.
#[verifier::external_body]
pub(crate) fn call_path_open(
    executor: &tokio::runtime::Runtime,
    ctx: &mut wasi_common::WasiCtx,
    mem: &mut Vec<u8>,
    a0: i32,
    a1: i32,
    a2: i32,
    a3: i32,
    a4: i32,
    a5: i64,
    a6: i64,
    a7: i32,
    a8: i32,
) -> (r: Result<i32, ()>)
    ensures
        final(mem)@.len() == old(mem)@.len(),
{
    let mut gm = wiggle::GuestMemory::Unshared(mem.as_mut_slice());
    match executor.block_on(preview1::path_open(ctx, &mut gm, a0, a1, a2, a3, a4, a5, a6, a7, a8)) {
        Ok(e) => Ok(e),
        Err(_) => Err(()),
    }
}

/// Relies on `wasi_common`'s generated preview1 `path_filestat_get`: returns the
/// errno the operation reports, or `Err` when it traps; the memory view it
/// is given covers the buffer alone, whose length it cannot change.
#[verifier::external_body]
pub(crate) fn call_path_filestat_get(
    executor: &tokio::runtime::Runtime,
    ctx: &mut wasi_common::WasiCtx,
    mem: &mut Vec<u8>,
    a0: i32,
    a1: i32,
    a2: i32,
    a3: i32,
    a4: i32,
) -> (r: Result<i32, ()>)
    ensures
        final(mem)@.len() == old(mem)@.len(),
{
    let mut gm = wiggle::GuestMemory::Unshared(mem.as_mut_slice());
    match executor.block_on(preview1::path_filestat_get(ctx, &mut gm, a0, a1, a2, a3, a4)) {
        Ok(e) => Ok(e),
        Err(_) => Err(()),
    }
}

/// Relies on `wasi_common`'s generated preview1 `path_readlink`: returns the
/// errno the operation reports, or `Err` when it traps; the memory view it
/// is given covers the buffer alone, whose length it cannot change.
#[verifier::external_body]
pub(crate) fn call_path_readlink(
    executor: &tokio::runtime::Runtime,
    ctx: &mut wasi_common::WasiCtx,
    mem: &mut Vec<u8>,
    a0: i32,
    a1: i32,
    a2: i32,
    a3: i32,
    a4: i32,
    a5: i32,
) -> (r: Result<i32, ()>)
    ensures
        final(mem)@.len() == old(mem)@.len(),
{
    let mut gm = wiggle::GuestMemory::Unshared(mem.as_mut_slice());
    match executor.block_on(preview1::path_readlink(ctx, &mut gm, a0, a1, a2, a3, a4, a5)) {
        Ok(e) => Ok(e),
        Err(_) => Err(()),
    }
}

/// Relies on `wasi_common`'s generated preview1 `path_rename`: returns the
/// errno the operation reports, or `Err` when it traps; the memory view it
/// is given covers the buffer alone, whose length it cannot change.
#[verifier::external_body]
pub(crate) fn call_path_rename(
    executor: &tokio::runtime::Runtime,
    ctx: &mut wasi_common::WasiCtx,
    mem: &mut Vec<u8>,
    a0: i32,
    a1: i32,
    a2: i32,
    a3: i32,
    a4: i32,
    a5: i32,
) -> (r: Result<i32, ()>)
    ensures
        final(mem)@.len() == old(mem)@.len(),
{
    let mut gm = wiggle::GuestMemory::Unshared(mem.as_mut_slice());
    match executor.block_on(preview1::path_rename(ctx, &mut gm, a0, a1, a2, a3, a4, a5)) {
        Ok(e) => Ok(e),
        Err(_) => Err(()),
    }
}

/// Relies on `wasi_common`'s generated preview1 `path_remove_directory`: returns the
/// errno the operation reports, or `Err` when it traps; the memory view it
/// is given covers the buffer alone, whose length it cannot change.
#[verifier::external_body]
pub(crate) fn call_path_remove_directory(
    executor: &tokio::runtime::Runtime,
    ctx: &mut wasi_common::WasiCtx,
    mem: &mut Vec<u8>,
    a0: i32,
    a1: i32,
    a2: i32,
) -> (r: Result<i32, ()>)
    ensures
        final(mem)@.len() == old(mem)@.len(),
{
    let mut gm = wiggle::GuestMemory::Unshared(mem.as_mut_slice());
    match executor.block_on(preview1::path_remove_directory(ctx, &mut gm, a0, a1, a2)) {
        Ok(e) => Ok(e),
        Err(_) => Err(()),
    }
}

/// Relies on `wasi_common`'s generated preview1 `path_create_directory`: returns the
/// errno the operation reports, or `Err` when it traps; the memory view it
/// is given covers the buffer alone, whose length it cannot change.
#[verifier::external_body]
pub(crate) fn call_path_create_directory(
    executor: &tokio::runtime::Runtime,
    ctx: &mut wasi_common::WasiCtx,
    mem: &mut Vec<u8>,
    a0: i32,
    a1: i32,
    a2: i32,
) -> (r: Result<i32, ()>)
    ensures
        final(mem)@.len() == old(mem)@.len(),
{
    let mut gm = wiggle::GuestMemory::Unshared(mem.as_mut_slice());
    match executor.block_on(preview1::path_create_directory(ctx, &mut gm, a0, a1, a2)) {
        Ok(e) => Ok(e),
        Err(_) => Err(()),
    }
}

/// Relies on `wasi_common`'s generated preview1 `fd_fdstat_get`: returns the
/// errno the operation reports, or `Err` when it traps; the memory view it
/// is given covers the buffer alone, whose length it cannot change.
#[verifier::external_body]
pub(crate) fn call_fd_fdstat_get(
    executor: &tokio::runtime::Runtime,
    ctx: &mut wasi_common::WasiCtx,
    mem: &mut Vec<u8>,
    a0: i32,
    a1: i32,
) -> (r: Result<i32, ()>)
    ensures
        final(mem)@.len() == old(mem)@.len(),
{
    let mut gm = wiggle::GuestMemory::Unshared(mem.as_mut_slice());
    match executor.block_on(preview1::fd_fdstat_get(ctx, &mut gm, a0, a1)) {
        Ok(e) => Ok(e),
        Err(_) => Err(()),
    }
}

/// Relies on `wasi_common`'s generated preview1 `fd_close`: returns the
/// errno the operation reports, or `Err` when it traps; the memory view it
/// is given covers the buffer alone, whose length it cannot change.
#[verifier::external_body]
pub(crate) fn call_fd_close(
    executor: &tokio::runtime::Runtime,
    ctx: &mut wasi_common::WasiCtx,
    mem: &mut Vec<u8>,
    a0: i32,
) -> (r: Result<i32, ()>)
    ensures
        final(mem)@.len() == old(mem)@.len(),
{
    let mut gm = wiggle::GuestMemory::Unshared(mem.as_mut_slice());
    match executor.block_on(preview1::fd_close(ctx, &mut gm, a0)) {
        Ok(e) => Ok(e),
        Err(_) => Err(()),
    }
}

/// Relies on `wasi_common`'s generated preview1 `fd_write`: returns the
/// errno the operation reports, or `Err` when it traps; the memory view it
/// is given covers the buffer alone, whose length it cannot change.
#[verifier::external_body]
pub(crate) fn call_fd_write(
    executor: &tokio::runtime::Runtime,
    ctx: &mut wasi_common::WasiCtx,
    mem: &mut Vec<u8>,
    a0: i32,
    a1: i32,
    a2: i32,
    a3: i32,
) -> (r: Result<i32, ()>)
    ensures
        final(mem)@.len() == old(mem)@.len(),
{
    let mut gm = wiggle::GuestMemory::Unshared(mem.as_mut_slice());
    match executor.block_on(preview1::fd_write(ctx, &mut gm, a0, a1, a2, a3)) {
        Ok(e) => Ok(e),
        Err(_) => Err(()),
    }
}

/// Relies on `wasi_common`'s generated preview1 `fd_read`: returns the
/// errno the operation reports, or `Err` when it traps; the memory view it
/// is given covers the buffer alone, whose length it cannot change.
#[verifier::external_body]
pub(crate) fn call_fd_read(
    executor: &tokio::runtime::Runtime,
    ctx: &mut wasi_common::WasiCtx,
    mem: &mut Vec<u8>,
    a0: i32,
    a1: i32,
    a2: i32,
    a3: i32,
) -> (r: Result<i32, ()>)
    ensures
        final(mem)@.len() == old(mem)@.len(),
{
    let mut gm = wiggle::GuestMemory::Unshared(mem.as_mut_slice());
    match executor.block_on(preview1::fd_read(ctx, &mut gm, a0, a1, a2, a3)) {
        Ok(e) => Ok(e),
        Err(_) => Err(()),
    }
}

/// Relies on `wasi_common`'s generated preview1 `fd_seek`: returns the
/// errno the operation reports, or `Err` when it traps; the memory view it
/// is given covers the buffer alone, whose length it cannot change.
#[verifier::external_body]
pub(crate) fn call_fd_seek(
    executor: &tokio::runtime::Runtime,
    ctx: &mut wasi_common::WasiCtx,
    mem: &mut Vec<u8>,
    a0: i32,
    a1: i64,
    a2: i32,
    a3: i32,
) -> (r: Result<i32, ()>)
    ensures
        final(mem)@.len() == old(mem)@.len(),
{
    let mut gm = wiggle::GuestMemory::Unshared(mem.as_mut_slice());
    match executor.block_on(preview1::fd_seek(ctx, &mut gm, a0, a1, a2, a3)) {
        Ok(e) => Ok(e),
        Err(_) => Err(()),
    }
}

/// Relies on `wasi_common`'s generated preview1 `fd_filestat_get`: returns the
/// errno the operation reports, or `Err` when it traps; the memory view it
/// is given covers the buffer alone, whose length it cannot change.
#[verifier::external_body]
pub(crate) fn call_fd_filestat_get(
    executor: &tokio::runtime::Runtime,
    ctx: &mut wasi_common::WasiCtx,
    mem: &mut Vec<u8>,
    a0: i32,
    a1: i32,
) -> (r: Result<i32, ()>)
    ensures
        final(mem)@.len() == old(mem)@.len(),
{
    let mut gm = wiggle::GuestMemory::Unshared(mem.as_mut_slice());
    match executor.block_on(preview1::fd_filestat_get(ctx, &mut gm, a0, a1)) {
        Ok(e) => Ok(e),
        Err(_) => Err(()),
    }
}

/// Relies on `wasi_common`'s generated preview1 `fd_filestat_set_size`: returns the
/// errno the operation reports, or `Err` when it traps; the memory view it
/// is given covers the buffer alone, whose length it cannot change.
#[verifier::external_body]
pub(crate) fn call_fd_filestat_set_size(
    executor: &tokio::runtime::Runtime,
    ctx: &mut wasi_common::WasiCtx,
    mem: &mut Vec<u8>,
    a0: i32,
    a1: i64,
) -> (r: Result<i32, ()>)
    ensures
        final(mem)@.len() == old(mem)@.len(),
{
    let mut gm = wiggle::GuestMemory::Unshared(mem.as_mut_slice());
    match executor.block_on(preview1::fd_filestat_set_size(ctx, &mut gm, a0, a1)) {
        Ok(e) => Ok(e),
        Err(_) => Err(()),
    }
}

/// Relies on `wasi_common`'s generated preview1 `fd_filestat_set_times`: returns the
/// errno the operation reports, or `Err` when it traps; the memory view it
/// is given covers the buffer alone, whose length it cannot change.
#[verifier::external_body]
pub(crate) fn call_fd_filestat_set_times(
    executor: &tokio::runtime::Runtime,
    ctx: &mut wasi_common::WasiCtx,
    mem: &mut Vec<u8>,
    a0: i32,
    a1: i64,
    a2: i64,
    a3: i32,
) -> (r: Result<i32, ()>)
    ensures
        final(mem)@.len() == old(mem)@.len(),
{
    let mut gm = wiggle::GuestMemory::Unshared(mem.as_mut_slice());
    match executor.block_on(preview1::fd_filestat_set_times(ctx, &mut gm, a0, a1, a2, a3)) {
        Ok(e) => Ok(e),
        Err(_) => Err(()),
    }
}

/// Relies on `wasi_common`'s generated preview1 `fd_allocate`: returns the
/// errno the operation reports, or `Err` when it traps; the memory view it
/// is given covers the buffer alone, whose length it cannot change.
#[verifier::external_body]
pub(crate) fn call_fd_allocate(
    executor: &tokio::runtime::Runtime,
    ctx: &mut wasi_common::WasiCtx,
    mem: &mut Vec<u8>,
    a0: i32,
    a1: i64,
    a2: i64,
) -> (r: Result<i32, ()>)
    ensures
        final(mem)@.len() == old(mem)@.len(),
{
    let mut gm = wiggle::GuestMemory::Unshared(mem.as_mut_slice());
    match executor.block_on(preview1::fd_allocate(ctx, &mut gm, a0, a1, a2)) {
        Ok(e) => Ok(e),
        Err(_) => Err(()),
    }
}

/// Relies on `wasi_common`'s generated preview1 `fd_fdstat_set_flags`: returns the
/// errno the operation reports, or `Err` when it traps; the memory view it
/// is given covers the buffer alone, whose length it cannot change.
#[verifier::external_body]
pub(crate) fn call_fd_fdstat_set_flags(
    executor: &tokio::runtime::Runtime,
    ctx: &mut wasi_common::WasiCtx,
    mem: &mut Vec<u8>,
    a0: i32,
    a1: i32,
) -> (r: Result<i32, ()>)
    ensures
        final(mem)@.len() == old(mem)@.len(),
{
    let mut gm = wiggle::GuestMemory::Unshared(mem.as_mut_slice());
    match executor.block_on(preview1::fd_fdstat_set_flags(ctx, &mut gm, a0, a1)) {
        Ok(e) => Ok(e),
        Err(_) => Err(()),
    }
}

/// Relies on `wasi_common`'s generated preview1 `fd_fdstat_set_rights`: returns the
/// errno the operation reports, or `Err` when it traps; the memory view it
/// is given covers the buffer alone, whose length it cannot change.
#[verifier::external_body]
pub(crate) fn call_fd_fdstat_set_rights(
    executor: &tokio::runtime::Runtime,
    ctx: &mut wasi_common::WasiCtx,
    mem: &mut Vec<u8>,
    a0: i32,
    a1: i64,
    a2: i64,
) -> (r: Result<i32, ()>)
    ensures
        final(mem)@.len() == old(mem)@.len(),
{
    let mut gm = wiggle::GuestMemory::Unshared(mem.as_mut_slice());
    match executor.block_on(preview1::fd_fdstat_set_rights(ctx, &mut gm, a0, a1, a2)) {
        Ok(e) => Ok(e),
        Err(_) => Err(()),
    }
}

/// Relies on `wasi_common`'s generated preview1 `clock_time_get`: returns the
/// errno the operation reports, or `Err` when it traps; the memory view it
/// is given covers the buffer alone, whose length it cannot change.
#[verifier::external_body]
pub(crate) fn call_clock_time_get(
    executor: &tokio::runtime::Runtime,
    ctx: &mut wasi_common::WasiCtx,
    mem: &mut Vec<u8>,
    a0: i32,
    a1: i64,
    a2: i32,
) -> (r: Result<i32, ()>)
    ensures
        final(mem)@.len() == old(mem)@.len(),
{
    let mut gm = wiggle::GuestMemory::Unshared(mem.as_mut_slice());
    match executor.block_on(preview1::clock_time_get(ctx, &mut gm, a0, a1, a2)) {
        Ok(e) => Ok(e),
        Err(_) => Err(()),
    }
}

/// Relies on `wasi_common`'s generated preview1 `clock_res_get`: returns the
/// errno the operation reports, or `Err` when it traps; the memory view it
/// is given covers the buffer alone, whose length it cannot change.
#[verifier::external_body]
pub(crate) fn call_clock_res_get(
    executor: &tokio::runtime::Runtime,
    ctx: &mut wasi_common::WasiCtx,
    mem: &mut Vec<u8>,
    a0: i32,
    a1: i32,
) -> (r: Result<i32, ()>)
    ensures
        final(mem)@.len() == old(mem)@.len(),
{
    let mut gm = wiggle::GuestMemory::Unshared(mem.as_mut_slice());
    match executor.block_on(preview1::clock_res_get(ctx, &mut gm, a0, a1)) {
        Ok(e) => Ok(e),
        Err(_) => Err(()),
    }
}

/// Relies on `wasi_common`'s generated preview1 `poll_oneoff`: returns the
/// errno the operation reports, or `Err` when it traps; the memory view it
/// is given covers the buffer alone, whose length it cannot change.
#[verifier::external_body]
pub(crate) fn call_poll_oneoff(
    executor: &tokio::runtime::Runtime,
    ctx: &mut wasi_common::WasiCtx,
    mem: &mut Vec<u8>,
    a0: i32,
    a1: i32,
    a2: i32,
    a3: i32,
) -> (r: Result<i32, ()>)
    ensures
        final(mem)@.len() == old(mem)@.len(),
{
    let mut gm = wiggle::GuestMemory::Unshared(mem.as_mut_slice());
    match executor.block_on(preview1::poll_oneoff(ctx, &mut gm, a0, a1, a2, a3)) {
        Ok(e) => Ok(e),
        Err(_) => Err(()),
    }
}

/// Relies on `wasi_common`'s generated preview1 `random_get`: returns the
/// errno the operation reports, or `Err` when it traps; the memory view it
/// is given covers the buffer alone, whose length it cannot change.
#[verifier::external_body]
pub(crate) fn call_random_get(
    executor: &tokio::runtime::Runtime,
    ctx: &mut wasi_common::WasiCtx,
    mem: &mut Vec<u8>,
    a0: i32,
    a1: i32,
) -> (r: Result<i32, ()>)
    ensures
        final(mem)@.len() == old(mem)@.len(),
{
    let mut gm = wiggle::GuestMemory::Unshared(mem.as_mut_slice());
    match executor.block_on(preview1::random_get(ctx, &mut gm, a0, a1)) {
        Ok(e) => Ok(e),
        Err(_) => Err(()),
    }
}

/// Relies on `wasi_common`'s generated preview1 `proc_raise`: returns the
/// errno the operation reports, or `Err` when it traps; the memory view it
/// is given covers the buffer alone, whose length it cannot change.
#[verifier::external_body]
pub(crate) fn call_proc_raise(
    executor: &tokio::runtime::Runtime,
    ctx: &mut wasi_common::WasiCtx,
    mem: &mut Vec<u8>,
    a0: i32,
) -> (r: Result<i32, ()>)
    ensures
        final(mem)@.len() == old(mem)@.len(),
{
    let mut gm = wiggle::GuestMemory::Unshared(mem.as_mut_slice());
    match executor.block_on(preview1::proc_raise(ctx, &mut gm, a0)) {
        Ok(e) => Ok(e),
        Err(_) => Err(()),
    }
}

/// Relies on `wasi_common`'s generated preview1 `fd_advise`: returns the
/// errno the operation reports, or `Err` when it traps; the memory view it
/// is given covers the buffer alone, whose length it cannot change.
#[verifier::external_body]
pub(crate) fn call_fd_advise(
    executor: &tokio::runtime::Runtime,
    ctx: &mut wasi_common::WasiCtx,
    mem: &mut Vec<u8>,
    a0: i32,
    a1: i64,
    a2: i64,
    a3: i32,
) -> (r: Result<i32, ()>)
    ensures
        final(mem)@.len() == old(mem)@.len(),
{
    let mut gm = wiggle::GuestMemory::Unshared(mem.as_mut_slice());
    match executor.block_on(preview1::fd_advise(ctx, &mut gm, a0, a1, a2, a3)) {
        Ok(e) => Ok(e),
        Err(_) => Err(()),
    }
}

/// Relies on `wasi_common`'s generated preview1 `fd_datasync`: returns the
/// errno the operation reports, or `Err` when it traps; the memory view it
/// is given covers the buffer alone, whose length it cannot change.
#[verifier::external_body]
pub(crate) fn call_fd_datasync(
    executor: &tokio::runtime::Runtime,
    ctx: &mut wasi_common::WasiCtx,
    mem: &mut Vec<u8>,
    a0: i32,
) -> (r: Result<i32, ()>)
    ensures
        final(mem)@.len() == old(mem)@.len(),
{
    let mut gm = wiggle::GuestMemory::Unshared(mem.as_mut_slice());
    match executor.block_on(preview1::fd_datasync(ctx, &mut gm, a0)) {
        Ok(e) => Ok(e),
        Err(_) => Err(()),
    }
}

/// Relies on `wasi_common`'s generated preview1 `path_symlink`: returns the
/// errno the operation reports, or `Err` when it traps; the memory view it
/// is given covers the buffer alone, whose length it cannot change.
#[verifier::external_body]
pub(crate) fn call_path_symlink(
    executor: &tokio::runtime::Runtime,
    ctx: &mut wasi_common::WasiCtx,
    mem: &mut Vec<u8>,
    a0: i32,
    a1: i32,
    a2: i32,
    a3: i32,
    a4: i32,
) -> (r: Result<i32, ()>)
    ensures
        final(mem)@.len() == old(mem)@.len(),
{
    let mut gm = wiggle::GuestMemory::Unshared(mem.as_mut_slice());
    match executor.block_on(preview1::path_symlink(ctx, &mut gm, a0, a1, a2, a3, a4)) {
        Ok(e) => Ok(e),
        Err(_) => Err(()),
    }
}

/// Relies on `wasi_common`'s generated preview1 `fd_readdir`: returns the
/// errno the operation reports, or `Err` when it traps; the memory view it
/// is given covers the buffer alone, whose length it cannot change.
#[verifier::external_body]
pub(crate) fn call_fd_readdir(
    executor: &tokio::runtime::Runtime,
    ctx: &mut wasi_common::WasiCtx,
    mem: &mut Vec<u8>,
    a0: i32,
    a1: i32,
    a2: i32,
    a3: i64,
    a4: i32,
) -> (r: Result<i32, ()>)
    ensures
        final(mem)@.len() == old(mem)@.len(),
{
    let mut gm = wiggle::GuestMemory::Unshared(mem.as_mut_slice());
    match executor.block_on(preview1::fd_readdir(ctx, &mut gm, a0, a1, a2, a3, a4)) {
        Ok(e) => Ok(e),
        Err(_) => Err(()),
    }
}

/// Relies on `wasi_common`'s generated preview1 `fd_renumber`: returns the
/// errno the operation reports, or `Err` when it traps; the memory view it
/// is given covers the buffer alone, whose length it cannot change.
#[verifier::external_body]
pub(crate) fn call_fd_renumber(
    executor: &tokio::runtime::Runtime,
    ctx: &mut wasi_common::WasiCtx,
    mem: &mut Vec<u8>,
    a0: i32,
    a1: i32,
) -> (r: Result<i32, ()>)
    ensures
        final(mem)@.len() == old(mem)@.len(),
{
    let mut gm = wiggle::GuestMemory::Unshared(mem.as_mut_slice());
    match executor.block_on(preview1::fd_renumber(ctx, &mut gm, a0, a1)) {
        Ok(e) => Ok(e),
        Err(_) => Err(()),
    }
}

/// Relies on `wasi_common`'s generated preview1 `fd_sync`: returns the
/// errno the operation reports, or `Err` when it traps; the memory view it
/// is given covers the buffer alone, whose length it cannot change.
#[verifier::external_body]
pub(crate) fn call_fd_sync(
    executor: &tokio::runtime::Runtime,
    ctx: &mut wasi_common::WasiCtx,
    mem: &mut Vec<u8>,
    a0: i32,
) -> (r: Result<i32, ()>)
    ensures
        final(mem)@.len() == old(mem)@.len(),
{
    let mut gm = wiggle::GuestMemory::Unshared(mem.as_mut_slice());
    match executor.block_on(preview1::fd_sync(ctx, &mut gm, a0)) {
        Ok(e) => Ok(e),
        Err(_) => Err(()),
    }
}

/// Relies on `wasi_common`'s generated preview1 `fd_tell`: returns the
/// errno the operation reports, or `Err` when it traps; the memory view it
/// is given covers the buffer alone, whose length it cannot change.
#[verifier::external_body]
pub(crate) fn call_fd_tell(
    executor: &tokio::runtime::Runtime,
    ctx: &mut wasi_common::WasiCtx,
    mem: &mut Vec<u8>,
    a0: i32,
    a1: i32,
) -> (r: Result<i32, ()>)
    ensures
        final(mem)@.len() == old(mem)@.len(),
{
    let mut gm = wiggle::GuestMemory::Unshared(mem.as_mut_slice());
    match executor.block_on(preview1::fd_tell(ctx, &mut gm, a0, a1)) {
        Ok(e) => Ok(e),
        Err(_) => Err(()),
    }
}

/// Relies on `wasi_common`'s generated preview1 `fd_pwrite`: returns the
/// errno the operation reports, or `Err` when it traps; the memory view it
/// is given covers the buffer alone, whose length it cannot change.
#[verifier::external_body]
pub(crate) fn call_fd_pwrite(
    executor: &tokio::runtime::Runtime,
    ctx: &mut wasi_common::WasiCtx,
    mem: &mut Vec<u8>,
    a0: i32,
    a1: i32,
    a2: i32,
    a3: i64,
    a4: i32,
) -> (r: Result<i32, ()>)
    ensures
        final(mem)@.len() == old(mem)@.len(),
{
    let mut gm = wiggle::GuestMemory::Unshared(mem.as_mut_slice());
    match executor.block_on(preview1::fd_pwrite(ctx, &mut gm, a0, a1, a2, a3, a4)) {
        Ok(e) => Ok(e),
        Err(_) => Err(()),
    }
}

/// Relies on `wasi_common`'s generated preview1 `fd_pread`: returns the
/// errno the operation reports, or `Err` when it traps; the memory view it
/// is given covers the buffer alone, whose length it cannot change.
#[verifier::external_body]
pub(crate) fn call_fd_pread(
    executor: &tokio::runtime::Runtime,
    ctx: &mut wasi_common::WasiCtx,
    mem: &mut Vec<u8>,
    a0: i32,
    a1: i32,
    a2: i32,
    a3: i64,
    a4: i32,
) -> (r: Result<i32, ()>)
    ensures
        final(mem)@.len() == old(mem)@.len(),
{
    let mut gm = wiggle::GuestMemory::Unshared(mem.as_mut_slice());
    match executor.block_on(preview1::fd_pread(ctx, &mut gm, a0, a1, a2, a3, a4)) {
        Ok(e) => Ok(e),
        Err(_) => Err(()),
    }
}

/// Relies on `wasi_common`'s generated preview1 `path_link`: returns the
/// errno the operation reports, or `Err` when it traps; the memory view it
/// is given covers the buffer alone, whose length it cannot change.
#[verifier::external_body]
pub(crate) fn call_path_link(
    executor: &tokio::runtime::Runtime,
    ctx: &mut wasi_common::WasiCtx,
    mem: &mut Vec<u8>,
    a0: i32,
    a1: i32,
    a2: i32,
    a3: i32,
    a4: i32,
    a5: i32,
    a6: i32,
) -> (r: Result<i32, ()>)
    ensures
        final(mem)@.len() == old(mem)@.len(),
{
    let mut gm = wiggle::GuestMemory::Unshared(mem.as_mut_slice());
    match executor.block_on(preview1::path_link(ctx, &mut gm, a0, a1, a2, a3, a4, a5, a6)) {
        Ok(e) => Ok(e),
        Err(_) => Err(()),
    }
}

/// Relies on `wasi_common`'s generated preview1 `path_filestat_set_times`: returns the
/// errno the operation reports, or `Err` when it traps; the memory view it
/// is given covers the buffer alone, whose length it cannot change.
#[verifier::external_body]
pub(crate) fn call_path_filestat_set_times(
    executor: &tokio::runtime::Runtime,
    ctx: &mut wasi_common::WasiCtx,
    mem: &mut Vec<u8>,
    a0: i32,
    a1: i32,
    a2: i32,
    a3: i32,
    a4: i64,
    a5: i64,
    a6: i32,
) -> (r: Result<i32, ()>)
    ensures
        final(mem)@.len() == old(mem)@.len(),
{
    let mut gm = wiggle::GuestMemory::Unshared(mem.as_mut_slice());
    match executor.block_on(preview1::path_filestat_set_times(ctx, &mut gm, a0, a1, a2, a3, a4, a5, a6)) {
        Ok(e) => Ok(e),
        Err(_) => Err(()),
    }
}

/// Relies on `wasi_common`'s generated preview1 `path_unlink_file`: returns the
/// errno the operation reports, or `Err` when it traps; the memory view it
/// is given covers the buffer alone, whose length it cannot change.
#[verifier::external_body]
pub(crate) fn call_path_unlink_file(
    executor: &tokio::runtime::Runtime,
    ctx: &mut wasi_common::WasiCtx,
    mem: &mut Vec<u8>,
    a0: i32,
    a1: i32,
    a2: i32,
) -> (r: Result<i32, ()>)
    ensures
        final(mem)@.len() == old(mem)@.len(),
{
    let mut gm = wiggle::GuestMemory::Unshared(mem.as_mut_slice());
    match executor.block_on(preview1::path_unlink_file(ctx, &mut gm, a0, a1, a2)) {
        Ok(e) => Ok(e),
        Err(_) => Err(()),
    }
}

/// Relies on `wasi_common`'s generated preview1 `sched_yield`: returns the
/// errno the operation reports, or `Err` when it traps; the memory view it
/// is given covers the buffer alone, whose length it cannot change.
#[verifier::external_body]
pub(crate) fn call_sched_yield(
    executor: &tokio::runtime::Runtime,
    ctx: &mut wasi_common::WasiCtx,
    mem: &mut Vec<u8>,
) -> (r: Result<i32, ()>)
    ensures
        final(mem)@.len() == old(mem)@.len(),
{
    let mut gm = wiggle::GuestMemory::Unshared(mem.as_mut_slice());
    match executor.block_on(preview1::sched_yield(ctx, &mut gm)) {
        Ok(e) => Ok(e),
        Err(_) => Err(()),
    }
}

/// Relies on `wasi_common`'s generated preview1 `sock_accept`: returns the
/// errno the operation reports, or `Err` when it traps; the memory view it
/// is given covers the buffer alone, whose length it cannot change.
#[verifier::external_body]
pub(crate) fn call_sock_accept(
    executor: &tokio::runtime::Runtime,
    ctx: &mut wasi_common::WasiCtx,
    mem: &mut Vec<u8>,
    a0: i32,
    a1: i32,
    a2: i32,
) -> (r: Result<i32, ()>)
    ensures
        final(mem)@.len() == old(mem)@.len(),
{
    let mut gm = wiggle::GuestMemory::Unshared(mem.as_mut_slice());
    match executor.block_on(preview1::sock_accept(ctx, &mut gm, a0, a1, a2)) {
        Ok(e) => Ok(e),
        Err(_) => Err(()),
    }
}

/// Relies on `wasi_common`'s generated preview1 `sock_recv`: returns the
/// errno the operation reports, or `Err` when it traps; the memory view it
/// is given covers the buffer alone, whose length it cannot change.
#[verifier::external_body]
pub(crate) fn call_sock_recv(
    executor: &tokio::runtime::Runtime,
    ctx: &mut wasi_common::WasiCtx,
    mem: &mut Vec<u8>,
    a0: i32,
    a1: i32,
    a2: i32,
    a3: i32,
    a4: i32,
    a5: i32,
) -> (r: Result<i32, ()>)
    ensures
        final(mem)@.len() == old(mem)@.len(),
{
    let mut gm = wiggle::GuestMemory::Unshared(mem.as_mut_slice());
    match executor.block_on(preview1::sock_recv(ctx, &mut gm, a0, a1, a2, a3, a4, a5)) {
        Ok(e) => Ok(e),
        Err(_) => Err(()),
    }
}

/// Relies on `wasi_common`'s generated preview1 `sock_send`: returns the
/// errno the operation reports, or `Err` when it traps; the memory view it
/// is given covers the buffer alone, whose length it cannot change.
#[verifier::external_body]
pub(crate) fn call_sock_send(
    executor: &tokio::runtime::Runtime,
    ctx: &mut wasi_common::WasiCtx,
    mem: &mut Vec<u8>,
    a0: i32,
    a1: i32,
    a2: i32,
    a3: i32,
    a4: i32,
) -> (r: Result<i32, ()>)
    ensures
        final(mem)@.len() == old(mem)@.len(),
{
    let mut gm = wiggle::GuestMemory::Unshared(mem.as_mut_slice());
    match executor.block_on(preview1::sock_send(ctx, &mut gm, a0, a1, a2, a3, a4)) {
        Ok(e) => Ok(e),
        Err(_) => Err(()),
    }
}

/// Relies on `wasi_common`'s generated preview1 `sock_shutdown`: returns the
/// errno the operation reports, or `Err` when it traps; the memory view it
/// is given covers the buffer alone, whose length it cannot change.
#[verifier::external_body]
pub(crate) fn call_sock_shutdown(
    executor: &tokio::runtime::Runtime,
    ctx: &mut wasi_common::WasiCtx,
    mem: &mut Vec<u8>,
    a0: i32,
    a1: i32,
) -> (r: Result<i32, ()>)
    ensures
        final(mem)@.len() == old(mem)@.len(),
{
    let mut gm = wiggle::GuestMemory::Unshared(mem.as_mut_slice());
    match executor.block_on(preview1::sock_shutdown(ctx, &mut gm, a0, a1)) {
        Ok(e) => Ok(e),
        Err(_) => Err(()),
    }
}

} // verus!

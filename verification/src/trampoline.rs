//! Trampoline dispatch.
//!
//! A guest import call arrives as a raw argument list. The trampoline
//! marshals the list against the import's declared widths, rejecting the
//! call with a WASI errno before any syscall runs if the arity is wrong or
//! an argument carries no integer. A marshaled call is handed to the
//! syscall library together with the shared host state and a fresh view of
//! the guest memory; the errno it reports goes back to the guest as the
//! call's 32-bit result. `proc_exit` alone never reaches the syscall
//! library: it is the guest's demand that the whole process stop, so the
//! trampoline turns it into an exit decision for the embedder to carry
//! out at once.

use vstd::prelude::*;

use crate::abi::ERRNO_FAULT;
use crate::abi::ERRNO_INVAL;
use crate::abi::GuestArg;
use crate::abi::lemma_marshal_args_values;
use crate::abi::marshal_args;
use crate::abi::marshal_args_spec;
use crate::abi::truncate_to_i32;
use crate::imports::ImportFn;
use crate::preview1::new_executor;
use crate::preview1::call_args_get;
use crate::preview1::call_args_sizes_get;
use crate::preview1::call_environ_get;
use crate::preview1::call_environ_sizes_get;
use crate::preview1::call_fd_prestat_get;
use crate::preview1::call_fd_prestat_dir_name;
use crate::preview1::call_path_open;
use crate::preview1::call_path_filestat_get;
use crate::preview1::call_path_readlink;
use crate::preview1::call_path_rename;
use crate::preview1::call_path_remove_directory;
use crate::preview1::call_path_create_directory;
use crate::preview1::call_fd_fdstat_get;
use crate::preview1::call_fd_close;
use crate::preview1::call_fd_write;
use crate::preview1::call_fd_read;
use crate::preview1::call_fd_seek;
use crate::preview1::call_fd_filestat_get;
use crate::preview1::call_fd_filestat_set_size;
use crate::preview1::call_fd_filestat_set_times;
use crate::preview1::call_fd_allocate;
use crate::preview1::call_fd_fdstat_set_flags;
use crate::preview1::call_fd_fdstat_set_rights;
use crate::preview1::call_clock_time_get;
use crate::preview1::call_clock_res_get;
use crate::preview1::call_poll_oneoff;
use crate::preview1::call_random_get;
use crate::preview1::call_proc_raise;
use crate::preview1::call_fd_advise;
use crate::preview1::call_fd_datasync;
use crate::preview1::call_path_symlink;
use crate::preview1::call_fd_readdir;
use crate::preview1::call_fd_renumber;
use crate::preview1::call_fd_sync;
use crate::preview1::call_fd_tell;
use crate::preview1::call_fd_pwrite;
use crate::preview1::call_fd_pread;
use crate::preview1::call_path_link;
use crate::preview1::call_path_filestat_set_times;
use crate::preview1::call_path_unlink_file;
use crate::preview1::call_sched_yield;
use crate::preview1::call_sock_accept;
use crate::preview1::call_sock_recv;
use crate::preview1::call_sock_send;
use crate::preview1::call_sock_shutdown;

verus! {

/// What one trampoline invocation decides.
#[derive(Clone, Copy, Debug, PartialEq, Eq, Structural)]
pub enum Dispatched {
    /// A normal return: this WASI errno goes back to the guest as the
    /// call's result (0 is success).
    Errno(i32),
    /// The call was `proc_exit`: the process must stop at once with this
    /// exit code; nothing is returned to the guest.
    Exit(i32),
}

/// What the guest sees of one driven syscall: the errno the operation
/// reported, or, where it trapped on a bad guest pointer instead of
/// reporting one, the address-fault errno. The host never crashes on a
/// fault; the guest's own error handling reacts.
pub fn errno_outcome(res: Result<i32, ()>) -> (d: Dispatched)
    ensures
        res matches Ok(e) ==> d == Dispatched::Errno(e),
        res is Err ==> d == Dispatched::Errno(ERRNO_FAULT),
        d is Errno,
{
    match res {
        Ok(e) => Dispatched::Errno(e),
        Err(_) => Dispatched::Errno(ERRNO_FAULT),
    }
}

/// The process-wide state every trampoline shares: the WASI context and
/// the persistent executor that drives each asynchronous syscall to
/// completion. Dispatch takes the host exclusively, so calls are
/// serialized and no two of them can interleave their use of the
/// context's descriptor or directory state.
pub struct WasiHost {
    ctx: wasi_common::WasiCtx,
    executor: tokio::runtime::Runtime,
}

impl WasiHost {
    /// Wraps an assembled WASI context together with the one executor all
    /// of this host's syscalls will share; `Err` when the executor cannot
    /// be set up.
    pub fn new(ctx: wasi_common::WasiCtx) -> (r: Result<WasiHost, ()>) {
        match new_executor() {
            Ok(executor) => Ok(WasiHost { ctx, executor }),
            Err(_) => Err(()),
        }
    }

    /// Dispatches one guest import call.
    ///
    /// The memory view is handed in fresh for this one call and covers the
    /// module's current linear memory; it is never retained, so a guest
    /// that grows its memory between calls is seen at its new size on the
    /// next call. The view's length never changes during the call.
    ///
    /// A call that cannot be marshaled is rejected with `ERRNO_INVAL`
    /// before any syscall runs. `proc_exit` yields the exit decision with
    /// its argument truncated to the signed 32-bit range, whatever state
    /// the host is in; every other import yields an errno for the guest.
    pub fn dispatch(&mut self, mem: &mut Vec<u8>, func: ImportFn, args: &Vec<GuestArg>) -> (r:
        Dispatched)
        ensures
            final(mem)@.len() == old(mem)@.len(),
            marshal_args_spec(args@, func.spec_arg_widths()) is None ==> r == Dispatched::Errno(
                ERRNO_INVAL,
            ),
            marshal_args_spec(args@, func.spec_arg_widths()) matches Some(vals) ==> (if func
                == ImportFn::ProcExit {
                r == Dispatched::Exit(vals[0] as i32)
            } else {
                r is Errno
            }),
    {
        let widths = func.arg_widths();
        let vals = match marshal_args(args, &widths) {
            Some(v) => v,
            None => {
                return Dispatched::Errno(ERRNO_INVAL);
            },
        };
        proof {
            lemma_marshal_args_values(args@, widths@);
        }
        match func {
            ImportFn::ProcExit => {
                return Dispatched::Exit(truncate_to_i32(vals[0]));
            },
            ImportFn::ArgsGet => {
                return errno_outcome(call_args_get(&self.executor, &mut self.ctx, mem, truncate_to_i32(vals[0]), truncate_to_i32(vals[1])));
            },
            ImportFn::ArgsSizesGet => {
                return errno_outcome(call_args_sizes_get(&self.executor, &mut self.ctx, mem, truncate_to_i32(vals[0]), truncate_to_i32(vals[1])));
            },
            ImportFn::EnvironGet => {
                return errno_outcome(call_environ_get(&self.executor, &mut self.ctx, mem, truncate_to_i32(vals[0]), truncate_to_i32(vals[1])));
            },
            ImportFn::EnvironSizesGet => {
                return errno_outcome(call_environ_sizes_get(&self.executor, &mut self.ctx, mem, truncate_to_i32(vals[0]), truncate_to_i32(vals[1])));
            },
            ImportFn::FdPrestatGet => {
                return errno_outcome(call_fd_prestat_get(&self.executor, &mut self.ctx, mem, truncate_to_i32(vals[0]), truncate_to_i32(vals[1])));
            },
            ImportFn::FdPrestatDirName => {
                return errno_outcome(call_fd_prestat_dir_name(&self.executor, &mut self.ctx, mem, truncate_to_i32(vals[0]), truncate_to_i32(vals[1]), truncate_to_i32(vals[2])));
            },
            ImportFn::PathOpen => {
                return errno_outcome(call_path_open(&self.executor, &mut self.ctx, mem, truncate_to_i32(vals[0]), truncate_to_i32(vals[1]), truncate_to_i32(vals[2]), truncate_to_i32(vals[3]), truncate_to_i32(vals[4]), vals[5], vals[6], truncate_to_i32(vals[7]), truncate_to_i32(vals[8])));
            },
            ImportFn::PathFilestatGet => {
                return errno_outcome(call_path_filestat_get(&self.executor, &mut self.ctx, mem, truncate_to_i32(vals[0]), truncate_to_i32(vals[1]), truncate_to_i32(vals[2]), truncate_to_i32(vals[3]), truncate_to_i32(vals[4])));
            },
            ImportFn::PathReadlink => {
                return errno_outcome(call_path_readlink(&self.executor, &mut self.ctx, mem, truncate_to_i32(vals[0]), truncate_to_i32(vals[1]), truncate_to_i32(vals[2]), truncate_to_i32(vals[3]), truncate_to_i32(vals[4]), truncate_to_i32(vals[5])));
            },
            ImportFn::PathRename => {
                return errno_outcome(call_path_rename(&self.executor, &mut self.ctx, mem, truncate_to_i32(vals[0]), truncate_to_i32(vals[1]), truncate_to_i32(vals[2]), truncate_to_i32(vals[3]), truncate_to_i32(vals[4]), truncate_to_i32(vals[5])));
            },
            ImportFn::PathRemoveDirectory => {
                return errno_outcome(call_path_remove_directory(&self.executor, &mut self.ctx, mem, truncate_to_i32(vals[0]), truncate_to_i32(vals[1]), truncate_to_i32(vals[2])));
            },
            ImportFn::PathCreateDirectory => {
                return errno_outcome(call_path_create_directory(&self.executor, &mut self.ctx, mem, truncate_to_i32(vals[0]), truncate_to_i32(vals[1]), truncate_to_i32(vals[2])));
            },
            ImportFn::FdFdstatGet => {
                return errno_outcome(call_fd_fdstat_get(&self.executor, &mut self.ctx, mem, truncate_to_i32(vals[0]), truncate_to_i32(vals[1])));
            },
            ImportFn::FdClose => {
                return errno_outcome(call_fd_close(&self.executor, &mut self.ctx, mem, truncate_to_i32(vals[0])));
            },
            ImportFn::FdWrite => {
                return errno_outcome(call_fd_write(&self.executor, &mut self.ctx, mem, truncate_to_i32(vals[0]), truncate_to_i32(vals[1]), truncate_to_i32(vals[2]), truncate_to_i32(vals[3])));
            },
            ImportFn::FdRead => {
                return errno_outcome(call_fd_read(&self.executor, &mut self.ctx, mem, truncate_to_i32(vals[0]), truncate_to_i32(vals[1]), truncate_to_i32(vals[2]), truncate_to_i32(vals[3])));
            },
            ImportFn::FdSeek => {
                return errno_outcome(call_fd_seek(&self.executor, &mut self.ctx, mem, truncate_to_i32(vals[0]), vals[1], truncate_to_i32(vals[2]), truncate_to_i32(vals[3])));
            },
            ImportFn::FdFilestatGet => {
                return errno_outcome(call_fd_filestat_get(&self.executor, &mut self.ctx, mem, truncate_to_i32(vals[0]), truncate_to_i32(vals[1])));
            },
            ImportFn::FdFilestatSetSize => {
                return errno_outcome(call_fd_filestat_set_size(&self.executor, &mut self.ctx, mem, truncate_to_i32(vals[0]), vals[1]));
            },
            ImportFn::FdFilestatSetTimes => {
                return errno_outcome(call_fd_filestat_set_times(&self.executor, &mut self.ctx, mem, truncate_to_i32(vals[0]), vals[1], vals[2], truncate_to_i32(vals[3])));
            },
            ImportFn::FdAllocate => {
                return errno_outcome(call_fd_allocate(&self.executor, &mut self.ctx, mem, truncate_to_i32(vals[0]), vals[1], vals[2]));
            },
            ImportFn::FdFdstatSetFlags => {
                return errno_outcome(call_fd_fdstat_set_flags(&self.executor, &mut self.ctx, mem, truncate_to_i32(vals[0]), truncate_to_i32(vals[1])));
            },
            ImportFn::FdFdstatSetRights => {
                return errno_outcome(call_fd_fdstat_set_rights(&self.executor, &mut self.ctx, mem, truncate_to_i32(vals[0]), vals[1], vals[2]));
            },
            ImportFn::ClockTimeGet => {
                return errno_outcome(call_clock_time_get(&self.executor, &mut self.ctx, mem, truncate_to_i32(vals[0]), vals[1], truncate_to_i32(vals[2])));
            },
            ImportFn::ClockResGet => {
                return errno_outcome(call_clock_res_get(&self.executor, &mut self.ctx, mem, truncate_to_i32(vals[0]), truncate_to_i32(vals[1])));
            },
            ImportFn::PollOneoff => {
                return errno_outcome(call_poll_oneoff(&self.executor, &mut self.ctx, mem, truncate_to_i32(vals[0]), truncate_to_i32(vals[1]), truncate_to_i32(vals[2]), truncate_to_i32(vals[3])));
            },
            ImportFn::RandomGet => {
                return errno_outcome(call_random_get(&self.executor, &mut self.ctx, mem, truncate_to_i32(vals[0]), truncate_to_i32(vals[1])));
            },
            ImportFn::ProcRaise => {
                return errno_outcome(call_proc_raise(&self.executor, &mut self.ctx, mem, truncate_to_i32(vals[0])));
            },
            ImportFn::FdAdvise => {
                return errno_outcome(call_fd_advise(&self.executor, &mut self.ctx, mem, truncate_to_i32(vals[0]), vals[1], vals[2], truncate_to_i32(vals[3])));
            },
            ImportFn::FdDatasync => {
                return errno_outcome(call_fd_datasync(&self.executor, &mut self.ctx, mem, truncate_to_i32(vals[0])));
            },
            ImportFn::PathSymlink => {
                return errno_outcome(call_path_symlink(&self.executor, &mut self.ctx, mem, truncate_to_i32(vals[0]), truncate_to_i32(vals[1]), truncate_to_i32(vals[2]), truncate_to_i32(vals[3]), truncate_to_i32(vals[4])));
            },
            ImportFn::FdReaddir => {
                return errno_outcome(call_fd_readdir(&self.executor, &mut self.ctx, mem, truncate_to_i32(vals[0]), truncate_to_i32(vals[1]), truncate_to_i32(vals[2]), vals[3], truncate_to_i32(vals[4])));
            },
            ImportFn::FdRenumber => {
                return errno_outcome(call_fd_renumber(&self.executor, &mut self.ctx, mem, truncate_to_i32(vals[0]), truncate_to_i32(vals[1])));
            },
            ImportFn::FdSync => {
                return errno_outcome(call_fd_sync(&self.executor, &mut self.ctx, mem, truncate_to_i32(vals[0])));
            },
            ImportFn::FdTell => {
                return errno_outcome(call_fd_tell(&self.executor, &mut self.ctx, mem, truncate_to_i32(vals[0]), truncate_to_i32(vals[1])));
            },
            ImportFn::FdPwrite => {
                return errno_outcome(call_fd_pwrite(&self.executor, &mut self.ctx, mem, truncate_to_i32(vals[0]), truncate_to_i32(vals[1]), truncate_to_i32(vals[2]), vals[3], truncate_to_i32(vals[4])));
            },
            ImportFn::FdPread => {
                return errno_outcome(call_fd_pread(&self.executor, &mut self.ctx, mem, truncate_to_i32(vals[0]), truncate_to_i32(vals[1]), truncate_to_i32(vals[2]), vals[3], truncate_to_i32(vals[4])));
            },
            ImportFn::PathLink => {
                return errno_outcome(call_path_link(&self.executor, &mut self.ctx, mem, truncate_to_i32(vals[0]), truncate_to_i32(vals[1]), truncate_to_i32(vals[2]), truncate_to_i32(vals[3]), truncate_to_i32(vals[4]), truncate_to_i32(vals[5]), truncate_to_i32(vals[6])));
            },
            ImportFn::PathFilestatSetTimes => {
                return errno_outcome(call_path_filestat_set_times(&self.executor, &mut self.ctx, mem, truncate_to_i32(vals[0]), truncate_to_i32(vals[1]), truncate_to_i32(vals[2]), truncate_to_i32(vals[3]), vals[4], vals[5], truncate_to_i32(vals[6])));
            },
            ImportFn::PathUnlinkFile => {
                return errno_outcome(call_path_unlink_file(&self.executor, &mut self.ctx, mem, truncate_to_i32(vals[0]), truncate_to_i32(vals[1]), truncate_to_i32(vals[2])));
            },
            ImportFn::SchedYield => {
                return errno_outcome(call_sched_yield(&self.executor, &mut self.ctx, mem));
            },
            ImportFn::SockAccept => {
                return errno_outcome(call_sock_accept(&self.executor, &mut self.ctx, mem, truncate_to_i32(vals[0]), truncate_to_i32(vals[1]), truncate_to_i32(vals[2])));
            },
            ImportFn::SockRecv => {
                return errno_outcome(call_sock_recv(&self.executor, &mut self.ctx, mem, truncate_to_i32(vals[0]), truncate_to_i32(vals[1]), truncate_to_i32(vals[2]), truncate_to_i32(vals[3]), truncate_to_i32(vals[4]), truncate_to_i32(vals[5])));
            },
            ImportFn::SockSend => {
                return errno_outcome(call_sock_send(&self.executor, &mut self.ctx, mem, truncate_to_i32(vals[0]), truncate_to_i32(vals[1]), truncate_to_i32(vals[2]), truncate_to_i32(vals[3]), truncate_to_i32(vals[4])));
            },
            ImportFn::SockShutdown => {
                return errno_outcome(call_sock_shutdown(&self.executor, &mut self.ctx, mem, truncate_to_i32(vals[0]), truncate_to_i32(vals[1])));
            },
        }
    }
}

} // verus!

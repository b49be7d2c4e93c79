//! The WASI import surface.
//!
//! The module namespace `wasi_snapshot_preview1` offers one import per
//! supported WASI function. Each import is identified here together with
//! the argument widths its trampoline must marshal; building the table is
//! pure configuration, so a guest import that the table lacks surfaces as
//! an instantiation failure, never as a silent no-op.

use vstd::prelude::*;

use crate::abi::ArgWidth;

verus! {

/// The name of the import namespace the table is installed under.
pub open spec fn namespace_spec() -> Seq<char> {
    "wasi_snapshot_preview1"@
}

/// Returns the import namespace name.
pub fn namespace() -> (s: &'static str)
    ensures
        s@ == namespace_spec(),
{
    "wasi_snapshot_preview1"
}

/// One function of the preview1 import set.
#[derive(Clone, Copy, Debug, PartialEq, Eq, Structural)]
pub enum ImportFn {
    ArgsGet,
    ArgsSizesGet,
    EnvironGet,
    EnvironSizesGet,
    FdPrestatGet,
    FdPrestatDirName,
    PathOpen,
    PathFilestatGet,
    PathReadlink,
    PathRename,
    PathRemoveDirectory,
    PathCreateDirectory,
    FdFdstatGet,
    FdClose,
    FdWrite,
    FdRead,
    FdSeek,
    FdFilestatGet,
    FdFilestatSetSize,
    FdFilestatSetTimes,
    FdAllocate,
    FdFdstatSetFlags,
    FdFdstatSetRights,
    ClockTimeGet,
    ClockResGet,
    PollOneoff,
    RandomGet,
    ProcRaise,
    FdAdvise,
    FdDatasync,
    PathSymlink,
    FdReaddir,
    FdRenumber,
    FdSync,
    FdTell,
    FdPwrite,
    FdPread,
    PathLink,
    PathFilestatSetTimes,
    PathUnlinkFile,
    ProcExit,
    SchedYield,
    SockAccept,
    SockRecv,
    SockSend,
    SockShutdown,
}

impl ImportFn {
    /// The import's name inside the namespace.
    pub open spec fn spec_name(self) -> Seq<char> {
        match self {
            ImportFn::ArgsGet => "args_get"@,
            ImportFn::ArgsSizesGet => "args_sizes_get"@,
            ImportFn::EnvironGet => "environ_get"@,
            ImportFn::EnvironSizesGet => "environ_sizes_get"@,
            ImportFn::FdPrestatGet => "fd_prestat_get"@,
            ImportFn::FdPrestatDirName => "fd_prestat_dir_name"@,
            ImportFn::PathOpen => "path_open"@,
            ImportFn::PathFilestatGet => "path_filestat_get"@,
            ImportFn::PathReadlink => "path_readlink"@,
            ImportFn::PathRename => "path_rename"@,
            ImportFn::PathRemoveDirectory => "path_remove_directory"@,
            ImportFn::PathCreateDirectory => "path_create_directory"@,
            ImportFn::FdFdstatGet => "fd_fdstat_get"@,
            ImportFn::FdClose => "fd_close"@,
            ImportFn::FdWrite => "fd_write"@,
            ImportFn::FdRead => "fd_read"@,
            ImportFn::FdSeek => "fd_seek"@,
            ImportFn::FdFilestatGet => "fd_filestat_get"@,
            ImportFn::FdFilestatSetSize => "fd_filestat_set_size"@,
            ImportFn::FdFilestatSetTimes => "fd_filestat_set_times"@,
            ImportFn::FdAllocate => "fd_allocate"@,
            ImportFn::FdFdstatSetFlags => "fd_fdstat_set_flags"@,
            ImportFn::FdFdstatSetRights => "fd_fdstat_set_rights"@,
            ImportFn::ClockTimeGet => "clock_time_get"@,
            ImportFn::ClockResGet => "clock_res_get"@,
            ImportFn::PollOneoff => "poll_oneoff"@,
            ImportFn::RandomGet => "random_get"@,
            ImportFn::ProcRaise => "proc_raise"@,
            ImportFn::FdAdvise => "fd_advise"@,
            ImportFn::FdDatasync => "fd_datasync"@,
            ImportFn::PathSymlink => "path_symlink"@,
            ImportFn::FdReaddir => "fd_readdir"@,
            ImportFn::FdRenumber => "fd_renumber"@,
            ImportFn::FdSync => "fd_sync"@,
            ImportFn::FdTell => "fd_tell"@,
            ImportFn::FdPwrite => "fd_pwrite"@,
            ImportFn::FdPread => "fd_pread"@,
            ImportFn::PathLink => "path_link"@,
            ImportFn::PathFilestatSetTimes => "path_filestat_set_times"@,
            ImportFn::PathUnlinkFile => "path_unlink_file"@,
            ImportFn::ProcExit => "proc_exit"@,
            ImportFn::SchedYield => "sched_yield"@,
            ImportFn::SockAccept => "sock_accept"@,
            ImportFn::SockRecv => "sock_recv"@,
            ImportFn::SockSend => "sock_send"@,
            ImportFn::SockShutdown => "sock_shutdown"@,
        }
    }

    /// The argument widths the import declares, used purely for marshaling.
    pub open spec fn spec_arg_widths(self) -> Seq<ArgWidth> {
        match self {
            ImportFn::ArgsGet => Seq::empty().push(ArgWidth::W32).push(ArgWidth::W32),
            ImportFn::ArgsSizesGet => Seq::empty().push(ArgWidth::W32).push(ArgWidth::W32),
            ImportFn::EnvironGet => Seq::empty().push(ArgWidth::W32).push(ArgWidth::W32),
            ImportFn::EnvironSizesGet => Seq::empty().push(ArgWidth::W32).push(ArgWidth::W32),
            ImportFn::FdPrestatGet => Seq::empty().push(ArgWidth::W32).push(ArgWidth::W32),
            ImportFn::FdPrestatDirName => Seq::empty().push(ArgWidth::W32).push(ArgWidth::W32).push(ArgWidth::W32),
            ImportFn::PathOpen => Seq::empty().push(ArgWidth::W32).push(ArgWidth::W32).push(ArgWidth::W32).push(ArgWidth::W32).push(ArgWidth::W32).push(ArgWidth::W64).push(ArgWidth::W64).push(ArgWidth::W32).push(ArgWidth::W32),
            ImportFn::PathFilestatGet => Seq::empty().push(ArgWidth::W32).push(ArgWidth::W32).push(ArgWidth::W32).push(ArgWidth::W32).push(ArgWidth::W32),
            ImportFn::PathReadlink => Seq::empty().push(ArgWidth::W32).push(ArgWidth::W32).push(ArgWidth::W32).push(ArgWidth::W32).push(ArgWidth::W32).push(ArgWidth::W32),
            ImportFn::PathRename => Seq::empty().push(ArgWidth::W32).push(ArgWidth::W32).push(ArgWidth::W32).push(ArgWidth::W32).push(ArgWidth::W32).push(ArgWidth::W32),
            ImportFn::PathRemoveDirectory => Seq::empty().push(ArgWidth::W32).push(ArgWidth::W32).push(ArgWidth::W32),
            ImportFn::PathCreateDirectory => Seq::empty().push(ArgWidth::W32).push(ArgWidth::W32).push(ArgWidth::W32),
            ImportFn::FdFdstatGet => Seq::empty().push(ArgWidth::W32).push(ArgWidth::W32),
            ImportFn::FdClose => Seq::empty().push(ArgWidth::W32),
            ImportFn::FdWrite => Seq::empty().push(ArgWidth::W32).push(ArgWidth::W32).push(ArgWidth::W32).push(ArgWidth::W32),
            ImportFn::FdRead => Seq::empty().push(ArgWidth::W32).push(ArgWidth::W32).push(ArgWidth::W32).push(ArgWidth::W32),
            ImportFn::FdSeek => Seq::empty().push(ArgWidth::W32).push(ArgWidth::W64).push(ArgWidth::W32).push(ArgWidth::W32),
            ImportFn::FdFilestatGet => Seq::empty().push(ArgWidth::W32).push(ArgWidth::W32),
            ImportFn::FdFilestatSetSize => Seq::empty().push(ArgWidth::W32).push(ArgWidth::W64),
            ImportFn::FdFilestatSetTimes => Seq::empty().push(ArgWidth::W32).push(ArgWidth::W64).push(ArgWidth::W64).push(ArgWidth::W32),
            ImportFn::FdAllocate => Seq::empty().push(ArgWidth::W32).push(ArgWidth::W64).push(ArgWidth::W64),
            ImportFn::FdFdstatSetFlags => Seq::empty().push(ArgWidth::W32).push(ArgWidth::W32),
            ImportFn::FdFdstatSetRights => Seq::empty().push(ArgWidth::W32).push(ArgWidth::W64).push(ArgWidth::W64),
            ImportFn::ClockTimeGet => Seq::empty().push(ArgWidth::W32).push(ArgWidth::W64).push(ArgWidth::W32),
            ImportFn::ClockResGet => Seq::empty().push(ArgWidth::W32).push(ArgWidth::W32),
            ImportFn::PollOneoff => Seq::empty().push(ArgWidth::W32).push(ArgWidth::W32).push(ArgWidth::W32).push(ArgWidth::W32),
            ImportFn::RandomGet => Seq::empty().push(ArgWidth::W32).push(ArgWidth::W32),
            ImportFn::ProcRaise => Seq::empty().push(ArgWidth::W32),
            ImportFn::FdAdvise => Seq::empty().push(ArgWidth::W32).push(ArgWidth::W64).push(ArgWidth::W64).push(ArgWidth::W32),
            ImportFn::FdDatasync => Seq::empty().push(ArgWidth::W32),
            ImportFn::PathSymlink => Seq::empty().push(ArgWidth::W32).push(ArgWidth::W32).push(ArgWidth::W32).push(ArgWidth::W32).push(ArgWidth::W32),
            ImportFn::FdReaddir => Seq::empty().push(ArgWidth::W32).push(ArgWidth::W32).push(ArgWidth::W32).push(ArgWidth::W64).push(ArgWidth::W32),
            ImportFn::FdRenumber => Seq::empty().push(ArgWidth::W32).push(ArgWidth::W32),
            ImportFn::FdSync => Seq::empty().push(ArgWidth::W32),
            ImportFn::FdTell => Seq::empty().push(ArgWidth::W32).push(ArgWidth::W32),
            ImportFn::FdPwrite => Seq::empty().push(ArgWidth::W32).push(ArgWidth::W32).push(ArgWidth::W32).push(ArgWidth::W64).push(ArgWidth::W32),
            ImportFn::FdPread => Seq::empty().push(ArgWidth::W32).push(ArgWidth::W32).push(ArgWidth::W32).push(ArgWidth::W64).push(ArgWidth::W32),
            ImportFn::PathLink => Seq::empty().push(ArgWidth::W32).push(ArgWidth::W32).push(ArgWidth::W32).push(ArgWidth::W32).push(ArgWidth::W32).push(ArgWidth::W32).push(ArgWidth::W32),
            ImportFn::PathFilestatSetTimes => Seq::empty().push(ArgWidth::W32).push(ArgWidth::W32).push(ArgWidth::W32).push(ArgWidth::W32).push(ArgWidth::W64).push(ArgWidth::W64).push(ArgWidth::W32),
            ImportFn::PathUnlinkFile => Seq::empty().push(ArgWidth::W32).push(ArgWidth::W32).push(ArgWidth::W32),
            ImportFn::ProcExit => Seq::empty().push(ArgWidth::W32),
            ImportFn::SchedYield => Seq::empty(),
            ImportFn::SockAccept => Seq::empty().push(ArgWidth::W32).push(ArgWidth::W32).push(ArgWidth::W32),
            ImportFn::SockRecv => Seq::empty().push(ArgWidth::W32).push(ArgWidth::W32).push(ArgWidth::W32).push(ArgWidth::W32).push(ArgWidth::W32).push(ArgWidth::W32),
            ImportFn::SockSend => Seq::empty().push(ArgWidth::W32).push(ArgWidth::W32).push(ArgWidth::W32).push(ArgWidth::W32).push(ArgWidth::W32),
            ImportFn::SockShutdown => Seq::empty().push(ArgWidth::W32).push(ArgWidth::W32),
        }
    }

    /// Returns the import's name.
    pub fn name(&self) -> (s: &'static str)
        ensures
            s@ == self.spec_name(),
    {
        match self {
            ImportFn::ArgsGet => "args_get",
            ImportFn::ArgsSizesGet => "args_sizes_get",
            ImportFn::EnvironGet => "environ_get",
            ImportFn::EnvironSizesGet => "environ_sizes_get",
            ImportFn::FdPrestatGet => "fd_prestat_get",
            ImportFn::FdPrestatDirName => "fd_prestat_dir_name",
            ImportFn::PathOpen => "path_open",
            ImportFn::PathFilestatGet => "path_filestat_get",
            ImportFn::PathReadlink => "path_readlink",
            ImportFn::PathRename => "path_rename",
            ImportFn::PathRemoveDirectory => "path_remove_directory",
            ImportFn::PathCreateDirectory => "path_create_directory",
            ImportFn::FdFdstatGet => "fd_fdstat_get",
            ImportFn::FdClose => "fd_close",
            ImportFn::FdWrite => "fd_write",
            ImportFn::FdRead => "fd_read",
            ImportFn::FdSeek => "fd_seek",
            ImportFn::FdFilestatGet => "fd_filestat_get",
            ImportFn::FdFilestatSetSize => "fd_filestat_set_size",
            ImportFn::FdFilestatSetTimes => "fd_filestat_set_times",
            ImportFn::FdAllocate => "fd_allocate",
            ImportFn::FdFdstatSetFlags => "fd_fdstat_set_flags",
            ImportFn::FdFdstatSetRights => "fd_fdstat_set_rights",
            ImportFn::ClockTimeGet => "clock_time_get",
            ImportFn::ClockResGet => "clock_res_get",
            ImportFn::PollOneoff => "poll_oneoff",
            ImportFn::RandomGet => "random_get",
            ImportFn::ProcRaise => "proc_raise",
            ImportFn::FdAdvise => "fd_advise",
            ImportFn::FdDatasync => "fd_datasync",
            ImportFn::PathSymlink => "path_symlink",
            ImportFn::FdReaddir => "fd_readdir",
            ImportFn::FdRenumber => "fd_renumber",
            ImportFn::FdSync => "fd_sync",
            ImportFn::FdTell => "fd_tell",
            ImportFn::FdPwrite => "fd_pwrite",
            ImportFn::FdPread => "fd_pread",
            ImportFn::PathLink => "path_link",
            ImportFn::PathFilestatSetTimes => "path_filestat_set_times",
            ImportFn::PathUnlinkFile => "path_unlink_file",
            ImportFn::ProcExit => "proc_exit",
            ImportFn::SchedYield => "sched_yield",
            ImportFn::SockAccept => "sock_accept",
            ImportFn::SockRecv => "sock_recv",
            ImportFn::SockSend => "sock_send",
            ImportFn::SockShutdown => "sock_shutdown",
        }
    }

    /// Returns the import's declared argument widths.
    pub fn arg_widths(&self) -> (v: Vec<ArgWidth>)
        ensures
            v@ == self.spec_arg_widths(),
    {
        match self {
            ImportFn::ArgsGet => {
                let mut v: Vec<ArgWidth> = Vec::new();
                v.push(ArgWidth::W32);
                v.push(ArgWidth::W32);
                return v;
            },
            ImportFn::ArgsSizesGet => {
                let mut v: Vec<ArgWidth> = Vec::new();
                v.push(ArgWidth::W32);
                v.push(ArgWidth::W32);
                return v;
            },
            ImportFn::EnvironGet => {
                let mut v: Vec<ArgWidth> = Vec::new();
                v.push(ArgWidth::W32);
                v.push(ArgWidth::W32);
                return v;
            },
            ImportFn::EnvironSizesGet => {
                let mut v: Vec<ArgWidth> = Vec::new();
                v.push(ArgWidth::W32);
                v.push(ArgWidth::W32);
                return v;
            },
            ImportFn::FdPrestatGet => {
                let mut v: Vec<ArgWidth> = Vec::new();
                v.push(ArgWidth::W32);
                v.push(ArgWidth::W32);
                return v;
            },
            ImportFn::FdPrestatDirName => {
                let mut v: Vec<ArgWidth> = Vec::new();
                v.push(ArgWidth::W32);
                v.push(ArgWidth::W32);
                v.push(ArgWidth::W32);
                return v;
            },
            ImportFn::PathOpen => {
                let mut v: Vec<ArgWidth> = Vec::new();
                v.push(ArgWidth::W32);
                v.push(ArgWidth::W32);
                v.push(ArgWidth::W32);
                v.push(ArgWidth::W32);
                v.push(ArgWidth::W32);
                v.push(ArgWidth::W64);
                v.push(ArgWidth::W64);
                v.push(ArgWidth::W32);
                v.push(ArgWidth::W32);
                return v;
            },
            ImportFn::PathFilestatGet => {
                let mut v: Vec<ArgWidth> = Vec::new();
                v.push(ArgWidth::W32);
                v.push(ArgWidth::W32);
                v.push(ArgWidth::W32);
                v.push(ArgWidth::W32);
                v.push(ArgWidth::W32);
                return v;
            },
            ImportFn::PathReadlink => {
                let mut v: Vec<ArgWidth> = Vec::new();
                v.push(ArgWidth::W32);
                v.push(ArgWidth::W32);
                v.push(ArgWidth::W32);
                v.push(ArgWidth::W32);
                v.push(ArgWidth::W32);
                v.push(ArgWidth::W32);
                return v;
            },
            ImportFn::PathRename => {
                let mut v: Vec<ArgWidth> = Vec::new();
                v.push(ArgWidth::W32);
                v.push(ArgWidth::W32);
                v.push(ArgWidth::W32);
                v.push(ArgWidth::W32);
                v.push(ArgWidth::W32);
                v.push(ArgWidth::W32);
                return v;
            },
            ImportFn::PathRemoveDirectory => {
                let mut v: Vec<ArgWidth> = Vec::new();
                v.push(ArgWidth::W32);
                v.push(ArgWidth::W32);
                v.push(ArgWidth::W32);
                return v;
            },
            ImportFn::PathCreateDirectory => {
                let mut v: Vec<ArgWidth> = Vec::new();
                v.push(ArgWidth::W32);
                v.push(ArgWidth::W32);
                v.push(ArgWidth::W32);
                return v;
            },
            ImportFn::FdFdstatGet => {
                let mut v: Vec<ArgWidth> = Vec::new();
                v.push(ArgWidth::W32);
                v.push(ArgWidth::W32);
                return v;
            },
            ImportFn::FdClose => {
                let mut v: Vec<ArgWidth> = Vec::new();
                v.push(ArgWidth::W32);
                return v;
            },
            ImportFn::FdWrite => {
                let mut v: Vec<ArgWidth> = Vec::new();
                v.push(ArgWidth::W32);
                v.push(ArgWidth::W32);
                v.push(ArgWidth::W32);
                v.push(ArgWidth::W32);
                return v;
            },
            ImportFn::FdRead => {
                let mut v: Vec<ArgWidth> = Vec::new();
                v.push(ArgWidth::W32);
                v.push(ArgWidth::W32);
                v.push(ArgWidth::W32);
                v.push(ArgWidth::W32);
                return v;
            },
            ImportFn::FdSeek => {
                let mut v: Vec<ArgWidth> = Vec::new();
                v.push(ArgWidth::W32);
                v.push(ArgWidth::W64);
                v.push(ArgWidth::W32);
                v.push(ArgWidth::W32);
                return v;
            },
            ImportFn::FdFilestatGet => {
                let mut v: Vec<ArgWidth> = Vec::new();
                v.push(ArgWidth::W32);
                v.push(ArgWidth::W32);
                return v;
            },
            ImportFn::FdFilestatSetSize => {
                let mut v: Vec<ArgWidth> = Vec::new();
                v.push(ArgWidth::W32);
                v.push(ArgWidth::W64);
                return v;
            },
            ImportFn::FdFilestatSetTimes => {
                let mut v: Vec<ArgWidth> = Vec::new();
                v.push(ArgWidth::W32);
                v.push(ArgWidth::W64);
                v.push(ArgWidth::W64);
                v.push(ArgWidth::W32);
                return v;
            },
            ImportFn::FdAllocate => {
                let mut v: Vec<ArgWidth> = Vec::new();
                v.push(ArgWidth::W32);
                v.push(ArgWidth::W64);
                v.push(ArgWidth::W64);
                return v;
            },
            ImportFn::FdFdstatSetFlags => {
                let mut v: Vec<ArgWidth> = Vec::new();
                v.push(ArgWidth::W32);
                v.push(ArgWidth::W32);
                return v;
            },
            ImportFn::FdFdstatSetRights => {
                let mut v: Vec<ArgWidth> = Vec::new();
                v.push(ArgWidth::W32);
                v.push(ArgWidth::W64);
                v.push(ArgWidth::W64);
                return v;
            },
            ImportFn::ClockTimeGet => {
                let mut v: Vec<ArgWidth> = Vec::new();
                v.push(ArgWidth::W32);
                v.push(ArgWidth::W64);
                v.push(ArgWidth::W32);
                return v;
            },
            ImportFn::ClockResGet => {
                let mut v: Vec<ArgWidth> = Vec::new();
                v.push(ArgWidth::W32);
                v.push(ArgWidth::W32);
                return v;
            },
            ImportFn::PollOneoff => {
                let mut v: Vec<ArgWidth> = Vec::new();
                v.push(ArgWidth::W32);
                v.push(ArgWidth::W32);
                v.push(ArgWidth::W32);
                v.push(ArgWidth::W32);
                return v;
            },
            ImportFn::RandomGet => {
                let mut v: Vec<ArgWidth> = Vec::new();
                v.push(ArgWidth::W32);
                v.push(ArgWidth::W32);
                return v;
            },
            ImportFn::ProcRaise => {
                let mut v: Vec<ArgWidth> = Vec::new();
                v.push(ArgWidth::W32);
                return v;
            },
            ImportFn::FdAdvise => {
                let mut v: Vec<ArgWidth> = Vec::new();
                v.push(ArgWidth::W32);
                v.push(ArgWidth::W64);
                v.push(ArgWidth::W64);
                v.push(ArgWidth::W32);
                return v;
            },
            ImportFn::FdDatasync => {
                let mut v: Vec<ArgWidth> = Vec::new();
                v.push(ArgWidth::W32);
                return v;
            },
            ImportFn::PathSymlink => {
                let mut v: Vec<ArgWidth> = Vec::new();
                v.push(ArgWidth::W32);
                v.push(ArgWidth::W32);
                v.push(ArgWidth::W32);
                v.push(ArgWidth::W32);
                v.push(ArgWidth::W32);
                return v;
            },
            ImportFn::FdReaddir => {
                let mut v: Vec<ArgWidth> = Vec::new();
                v.push(ArgWidth::W32);
                v.push(ArgWidth::W32);
                v.push(ArgWidth::W32);
                v.push(ArgWidth::W64);
                v.push(ArgWidth::W32);
                return v;
            },
            ImportFn::FdRenumber => {
                let mut v: Vec<ArgWidth> = Vec::new();
                v.push(ArgWidth::W32);
                v.push(ArgWidth::W32);
                return v;
            },
            ImportFn::FdSync => {
                let mut v: Vec<ArgWidth> = Vec::new();
                v.push(ArgWidth::W32);
                return v;
            },
            ImportFn::FdTell => {
                let mut v: Vec<ArgWidth> = Vec::new();
                v.push(ArgWidth::W32);
                v.push(ArgWidth::W32);
                return v;
            },
            ImportFn::FdPwrite => {
                let mut v: Vec<ArgWidth> = Vec::new();
                v.push(ArgWidth::W32);
                v.push(ArgWidth::W32);
                v.push(ArgWidth::W32);
                v.push(ArgWidth::W64);
                v.push(ArgWidth::W32);
                return v;
            },
            ImportFn::FdPread => {
                let mut v: Vec<ArgWidth> = Vec::new();
                v.push(ArgWidth::W32);
                v.push(ArgWidth::W32);
                v.push(ArgWidth::W32);
                v.push(ArgWidth::W64);
                v.push(ArgWidth::W32);
                return v;
            },
            ImportFn::PathLink => {
                let mut v: Vec<ArgWidth> = Vec::new();
                v.push(ArgWidth::W32);
                v.push(ArgWidth::W32);
                v.push(ArgWidth::W32);
                v.push(ArgWidth::W32);
                v.push(ArgWidth::W32);
                v.push(ArgWidth::W32);
                v.push(ArgWidth::W32);
                return v;
            },
            ImportFn::PathFilestatSetTimes => {
                let mut v: Vec<ArgWidth> = Vec::new();
                v.push(ArgWidth::W32);
                v.push(ArgWidth::W32);
                v.push(ArgWidth::W32);
                v.push(ArgWidth::W32);
                v.push(ArgWidth::W64);
                v.push(ArgWidth::W64);
                v.push(ArgWidth::W32);
                return v;
            },
            ImportFn::PathUnlinkFile => {
                let mut v: Vec<ArgWidth> = Vec::new();
                v.push(ArgWidth::W32);
                v.push(ArgWidth::W32);
                v.push(ArgWidth::W32);
                return v;
            },
            ImportFn::ProcExit => {
                let mut v: Vec<ArgWidth> = Vec::new();
                v.push(ArgWidth::W32);
                return v;
            },
            ImportFn::SchedYield => {
                let mut v: Vec<ArgWidth> = Vec::new();
                return v;
            },
            ImportFn::SockAccept => {
                let mut v: Vec<ArgWidth> = Vec::new();
                v.push(ArgWidth::W32);
                v.push(ArgWidth::W32);
                v.push(ArgWidth::W32);
                return v;
            },
            ImportFn::SockRecv => {
                let mut v: Vec<ArgWidth> = Vec::new();
                v.push(ArgWidth::W32);
                v.push(ArgWidth::W32);
                v.push(ArgWidth::W32);
                v.push(ArgWidth::W32);
                v.push(ArgWidth::W32);
                v.push(ArgWidth::W32);
                return v;
            },
            ImportFn::SockSend => {
                let mut v: Vec<ArgWidth> = Vec::new();
                v.push(ArgWidth::W32);
                v.push(ArgWidth::W32);
                v.push(ArgWidth::W32);
                v.push(ArgWidth::W32);
                v.push(ArgWidth::W32);
                return v;
            },
            ImportFn::SockShutdown => {
                let mut v: Vec<ArgWidth> = Vec::new();
                v.push(ArgWidth::W32);
                v.push(ArgWidth::W32);
                return v;
            },
        }
    }
}

/// The full preview1 import set, in the order the table registers it.
pub open spec fn import_table_spec() -> Seq<ImportFn> {
    Seq::empty()
        .push(ImportFn::ArgsGet)
        .push(ImportFn::ArgsSizesGet)
        .push(ImportFn::EnvironGet)
        .push(ImportFn::EnvironSizesGet)
        .push(ImportFn::FdPrestatGet)
        .push(ImportFn::FdPrestatDirName)
        .push(ImportFn::PathOpen)
        .push(ImportFn::PathFilestatGet)
        .push(ImportFn::PathReadlink)
        .push(ImportFn::PathRename)
        .push(ImportFn::PathRemoveDirectory)
        .push(ImportFn::PathCreateDirectory)
        .push(ImportFn::FdFdstatGet)
        .push(ImportFn::FdClose)
        .push(ImportFn::FdWrite)
        .push(ImportFn::FdRead)
        .push(ImportFn::FdSeek)
        .push(ImportFn::FdFilestatGet)
        .push(ImportFn::FdFilestatSetSize)
        .push(ImportFn::FdFilestatSetTimes)
        .push(ImportFn::FdAllocate)
        .push(ImportFn::FdFdstatSetFlags)
        .push(ImportFn::FdFdstatSetRights)
        .push(ImportFn::ClockTimeGet)
        .push(ImportFn::ClockResGet)
        .push(ImportFn::PollOneoff)
        .push(ImportFn::RandomGet)
        .push(ImportFn::ProcRaise)
        .push(ImportFn::FdAdvise)
        .push(ImportFn::FdDatasync)
        .push(ImportFn::PathSymlink)
        .push(ImportFn::FdReaddir)
        .push(ImportFn::FdRenumber)
        .push(ImportFn::FdSync)
        .push(ImportFn::FdTell)
        .push(ImportFn::FdPwrite)
        .push(ImportFn::FdPread)
        .push(ImportFn::PathLink)
        .push(ImportFn::PathFilestatSetTimes)
        .push(ImportFn::PathUnlinkFile)
        .push(ImportFn::ProcExit)
        .push(ImportFn::SchedYield)
        .push(ImportFn::SockAccept)
        .push(ImportFn::SockRecv)
        .push(ImportFn::SockSend)
        .push(ImportFn::SockShutdown)
}

/// Builds the import table: the complete preview1 function set, each entry
/// naming one import for the engine to resolve against its trampoline.
pub fn import_table() -> (t: Vec<ImportFn>)
    ensures
        t@ == import_table_spec(),
{
    let mut t: Vec<ImportFn> = Vec::new();
    t.push(ImportFn::ArgsGet);
    t.push(ImportFn::ArgsSizesGet);
    t.push(ImportFn::EnvironGet);
    t.push(ImportFn::EnvironSizesGet);
    t.push(ImportFn::FdPrestatGet);
    t.push(ImportFn::FdPrestatDirName);
    t.push(ImportFn::PathOpen);
    t.push(ImportFn::PathFilestatGet);
    t.push(ImportFn::PathReadlink);
    t.push(ImportFn::PathRename);
    t.push(ImportFn::PathRemoveDirectory);
    t.push(ImportFn::PathCreateDirectory);
    t.push(ImportFn::FdFdstatGet);
    t.push(ImportFn::FdClose);
    t.push(ImportFn::FdWrite);
    t.push(ImportFn::FdRead);
    t.push(ImportFn::FdSeek);
    t.push(ImportFn::FdFilestatGet);
    t.push(ImportFn::FdFilestatSetSize);
    t.push(ImportFn::FdFilestatSetTimes);
    t.push(ImportFn::FdAllocate);
    t.push(ImportFn::FdFdstatSetFlags);
    t.push(ImportFn::FdFdstatSetRights);
    t.push(ImportFn::ClockTimeGet);
    t.push(ImportFn::ClockResGet);
    t.push(ImportFn::PollOneoff);
    t.push(ImportFn::RandomGet);
    t.push(ImportFn::ProcRaise);
    t.push(ImportFn::FdAdvise);
    t.push(ImportFn::FdDatasync);
    t.push(ImportFn::PathSymlink);
    t.push(ImportFn::FdReaddir);
    t.push(ImportFn::FdRenumber);
    t.push(ImportFn::FdSync);
    t.push(ImportFn::FdTell);
    t.push(ImportFn::FdPwrite);
    t.push(ImportFn::FdPread);
    t.push(ImportFn::PathLink);
    t.push(ImportFn::PathFilestatSetTimes);
    t.push(ImportFn::PathUnlinkFile);
    t.push(ImportFn::ProcExit);
    t.push(ImportFn::SchedYield);
    t.push(ImportFn::SockAccept);
    t.push(ImportFn::SockRecv);
    t.push(ImportFn::SockSend);
    t.push(ImportFn::SockShutdown);
    t
}

/// The table registers every import exactly once: no name is bound to
/// two trampolines.
#[verifier::rlimit(100)]
pub proof fn lemma_import_table_no_duplicates()
    ensures
        forall|i: int, j: int|
            0 <= i < j < import_table_spec().len() ==> import_table_spec()[i]
                != import_table_spec()[j],
{
}

} // verus!

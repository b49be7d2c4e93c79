use lv8::abi::GuestArg;
use lv8::abi::ERRNO_INVAL;
use lv8::abi::ERRNO_SUCCESS;
use lv8::imports::ImportFn;
use lv8::trampoline::Dispatched;
use lv8::trampoline::WasiHost;

use wasi_common::pipe::WritePipe;
use wasi_common::sync::WasiCtxBuilder;

fn put_u32(mem: &mut Vec<u8>, off: usize, val: u32) {
    let b = val.to_le_bytes();
    mem[off..off + 4].copy_from_slice(&b);
}

fn get_u32(mem: &Vec<u8>, off: usize) -> u32 {
    u32::from_le_bytes([mem[off], mem[off + 1], mem[off + 2], mem[off + 3]])
}

fn put_bytes(mem: &mut Vec<u8>, off: usize, data: &[u8]) {
    mem[off..off + data.len()].copy_from_slice(data);
}

fn n(v: i64) -> GuestArg {
    GuestArg::Number(v)
}

fn host_with_pipe() -> (WasiHost, WritePipe<std::io::Cursor<Vec<u8>>>) {
    let pipe = WritePipe::new_in_memory();
    let mut builder = WasiCtxBuilder::new();
    builder.stdout(Box::new(pipe.clone()));
    let ctx = builder.build();
    let host = WasiHost::new(ctx).ok().expect("executor");
    (host, pipe)
}

fn pipe_contents(pipe: WritePipe<std::io::Cursor<Vec<u8>>>) -> Vec<u8> {
    pipe.try_into_inner()
        .ok()
        .expect("sole reference")
        .into_inner()
}

#[test]
fn fd_write_concatenates_iovecs_and_reports_the_count() {
    let (mut host, pipe) = host_with_pipe();
    let mut mem: Vec<u8> = vec![0; 65536];
    // two iovecs at 100: ("Hel" at 200, "lo!" at 300)
    put_u32(&mut mem, 100, 200);
    put_u32(&mut mem, 104, 3);
    put_u32(&mut mem, 108, 300);
    put_u32(&mut mem, 112, 3);
    put_bytes(&mut mem, 200, b"Hel");
    put_bytes(&mut mem, 300, b"lo!");
    let args = vec![n(1), n(100), n(2), n(400)];
    let r = host.dispatch(&mut mem, ImportFn::FdWrite, &args);
    assert_eq!(r, Dispatched::Errno(ERRNO_SUCCESS));
    assert_eq!(get_u32(&mem, 400), 6);
    drop(host);
    assert_eq!(pipe_contents(pipe), b"Hello!".to_vec());
}

#[test]
fn fd_write_out_of_bounds_returns_an_errno_not_a_crash() {
    let (mut host, pipe) = host_with_pipe();
    let mut mem: Vec<u8> = vec![0; 65536];
    // one iovec whose buffer lies beyond the current memory size
    put_u32(&mut mem, 100, 70000);
    put_u32(&mut mem, 104, 10);
    let args = vec![n(1), n(100), n(1), n(400)];
    let r = host.dispatch(&mut mem, ImportFn::FdWrite, &args);
    match r {
        Dispatched::Errno(e) => assert!(e != 0, "out-of-bounds write must fail"),
        Dispatched::Exit(_) => panic!("fd_write never exits the process"),
    }
    // the host is still alive and usable
    put_u32(&mut mem, 100, 200);
    put_u32(&mut mem, 104, 2);
    put_bytes(&mut mem, 200, b"ok");
    let r = host.dispatch(&mut mem, ImportFn::FdWrite, &args);
    assert_eq!(r, Dispatched::Errno(ERRNO_SUCCESS));
    drop(host);
    assert_eq!(pipe_contents(pipe), b"ok".to_vec());
}

#[test]
fn fd_write_on_a_bad_descriptor_relays_the_errno() {
    let (mut host, _pipe) = host_with_pipe();
    let mut mem: Vec<u8> = vec![0; 65536];
    put_u32(&mut mem, 100, 200);
    put_u32(&mut mem, 104, 1);
    let args = vec![n(99), n(100), n(1), n(400)];
    let r = host.dispatch(&mut mem, ImportFn::FdWrite, &args);
    match r {
        Dispatched::Errno(e) => assert!(e != 0, "unknown descriptor must fail"),
        Dispatched::Exit(_) => panic!("fd_write never exits the process"),
    }
}

#[test]
fn grown_memory_is_seen_at_its_new_size() {
    let (mut host, pipe) = host_with_pipe();
    let mut mem: Vec<u8> = vec![0; 65536];
    put_u32(&mut mem, 100, 200);
    put_u32(&mut mem, 104, 4);
    put_bytes(&mut mem, 200, b"one,");
    let args = vec![n(1), n(100), n(1), n(400)];
    assert_eq!(
        host.dispatch(&mut mem, ImportFn::FdWrite, &args),
        Dispatched::Errno(ERRNO_SUCCESS)
    );
    // the guest grows its memory; the next call gets a fresh, larger view
    // and reads a buffer that lies entirely beyond the old size
    mem.resize(131072, 0);
    put_u32(&mut mem, 100, 70000);
    put_u32(&mut mem, 104, 3);
    put_bytes(&mut mem, 70000, b"two");
    assert_eq!(
        host.dispatch(&mut mem, ImportFn::FdWrite, &args),
        Dispatched::Errno(ERRNO_SUCCESS)
    );
    assert_eq!(get_u32(&mem, 400), 3);
    drop(host);
    assert_eq!(pipe_contents(pipe), b"one,two".to_vec());
}

#[test]
fn proc_exit_decides_immediate_termination() {
    let (mut host, _pipe) = host_with_pipe();
    let mut mem: Vec<u8> = vec![0; 65536];
    // even with another syscall already served, proc_exit(7) is the
    // decision to stop the whole process with code 7
    put_u32(&mut mem, 100, 200);
    put_u32(&mut mem, 104, 1);
    let args = vec![n(1), n(100), n(1), n(400)];
    let _ = host.dispatch(&mut mem, ImportFn::FdWrite, &args);
    let r = host.dispatch(&mut mem, ImportFn::ProcExit, &vec![n(7)]);
    assert_eq!(r, Dispatched::Exit(7));
    // a 64-bit representation wraps to the declared 32-bit width
    let r = host.dispatch(
        &mut mem,
        ImportFn::ProcExit,
        &vec![GuestArg::BigInt(4294967303)],
    );
    assert_eq!(r, Dispatched::Exit(7));
}

#[test]
fn unmarshalable_calls_are_rejected_before_any_syscall() {
    let (mut host, pipe) = host_with_pipe();
    let mut mem: Vec<u8> = vec![0; 65536];
    // wrong arity
    let r = host.dispatch(&mut mem, ImportFn::FdWrite, &vec![n(1), n(100)]);
    assert_eq!(r, Dispatched::Errno(ERRNO_INVAL));
    // a non-integer argument
    let r = host.dispatch(
        &mut mem,
        ImportFn::FdWrite,
        &vec![n(1), GuestArg::NonInteger, n(1), n(400)],
    );
    assert_eq!(r, Dispatched::Errno(ERRNO_INVAL));
    drop(host);
    assert_eq!(pipe_contents(pipe), Vec::<u8>::new());
}

#[test]
fn sequential_path_opens_share_consistent_context_state() {
    let dir = cap_std::fs::Dir::open_ambient_dir(".", cap_std::ambient_authority())
        .expect("open cwd");
    let mut builder = WasiCtxBuilder::new();
    builder.preopened_dir(dir, "/").expect("preopen");
    let ctx = builder.build();
    let mut host = WasiHost::new(ctx).ok().expect("executor");
    let mut mem: Vec<u8> = vec![0; 65536];
    // the path "." at 500
    put_bytes(&mut mem, 500, b".");
    // path_open(dirfd=3, dirflags=0, path, path_len=1, oflags=DIRECTORY,
    //           rights_base=0, rights_inheriting=0, fdflags=0, out=600)
    let args = vec![
        n(3),
        n(0),
        n(500),
        n(1),
        n(2),
        GuestArg::BigInt(0),
        GuestArg::BigInt(0),
        n(0),
        n(600),
    ];
    let r1 = host.dispatch(&mut mem, ImportFn::PathOpen, &args);
    assert_eq!(r1, Dispatched::Errno(ERRNO_SUCCESS));
    let fd1 = get_u32(&mem, 600);
    let r2 = host.dispatch(&mut mem, ImportFn::PathOpen, &args);
    assert_eq!(r2, Dispatched::Errno(ERRNO_SUCCESS));
    let fd2 = get_u32(&mem, 600);
    // both opens succeeded against the same preopen, and the descriptor
    // table stayed consistent: two live, distinct descriptors
    assert!(fd1 > 3);
    assert!(fd2 > 3);
    assert!(fd1 != fd2);
}

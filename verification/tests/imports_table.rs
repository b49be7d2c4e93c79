use lv8::imports::import_table;
use lv8::imports::namespace;
use lv8::imports::ImportFn;
use lv8::abi::ArgWidth;

#[test]
fn namespace_is_preview1() {
    assert_eq!(namespace(), "wasi_snapshot_preview1");
}

#[test]
fn table_holds_the_full_preview1_set_once() {
    let t = import_table();
    assert_eq!(t.len(), 46);
    let mut names: Vec<&'static str> = t.iter().map(|f| f.name()).collect();
    names.sort();
    for pair in names.windows(2) {
        assert!(pair[0] != pair[1], "duplicate import {}", pair[0]);
    }
    assert!(names.contains(&"fd_write"));
    assert!(names.contains(&"path_open"));
    assert!(names.contains(&"proc_exit"));
    assert!(names.contains(&"sched_yield"));
    assert!(names.contains(&"sock_shutdown"));
    assert!(names.contains(&"clock_time_get"));
    assert!(names.contains(&"random_get"));
    assert!(names.contains(&"poll_oneoff"));
    assert!(names.contains(&"proc_raise"));
}

#[test]
fn names_follow_the_wasi_convention() {
    assert_eq!(ImportFn::ArgsGet.name(), "args_get");
    assert_eq!(ImportFn::FdWrite.name(), "fd_write");
    assert_eq!(ImportFn::PathOpen.name(), "path_open");
    assert_eq!(ImportFn::ProcExit.name(), "proc_exit");
    assert_eq!(ImportFn::FdPrestatDirName.name(), "fd_prestat_dir_name");
}

const W32: ArgWidth = ArgWidth::W32;
const W64: ArgWidth = ArgWidth::W64;

#[test]
fn declared_widths_match_the_abi() {
    assert_eq!(ImportFn::FdWrite.arg_widths(), vec![W32, W32, W32, W32]);
    assert_eq!(
        ImportFn::PathOpen.arg_widths(),
        vec![W32, W32, W32, W32, W32, W64, W64, W32, W32]
    );
    assert_eq!(ImportFn::ClockTimeGet.arg_widths(), vec![W32, W64, W32]);
    assert_eq!(ImportFn::SchedYield.arg_widths(), Vec::<ArgWidth>::new());
    assert_eq!(ImportFn::ProcExit.arg_widths(), vec![W32]);
    assert_eq!(
        ImportFn::FdSeek.arg_widths(),
        vec![W32, W64, W32, W32]
    );
}

use lv8::driver::process_exit_code;
use lv8::driver::Cli;
use lv8::runtime::final_state;
use lv8::runtime::interpret_return;
use lv8::runtime::run;
use lv8::runtime::ExecState;
use lv8::runtime::GuestReturn;
use lv8::runtime::RunError;
use lv8::runtime::StartEvent;

#[test]
fn start_without_value_exits_zero() {
    let r = run(&StartEvent::Returned(GuestReturn::Undefined));
    assert_eq!(r, Ok(0));
    assert_eq!(process_exit_code(&r), 0);
}

#[test]
fn start_with_integer_exits_that_code() {
    let r = run(&StartEvent::Returned(GuestReturn::Number(7)));
    assert_eq!(r, Ok(7));
    assert_eq!(process_exit_code(&r), 7);
}

#[test]
fn start_with_negative_integer_keeps_it() {
    let r = run(&StartEvent::Returned(GuestReturn::Number(-1)));
    assert_eq!(r, Ok(-1));
    assert_eq!(process_exit_code(&r), -1);
}

#[test]
fn start_with_large_integer_truncates_to_i32() {
    // 2^32 + 5 is congruent to 5 modulo 2^32
    let r = run(&StartEvent::Returned(GuestReturn::Number(4294967301)));
    assert_eq!(r, Ok(5));
    // 2^31 wraps to the smallest signed 32-bit value
    let r = run(&StartEvent::Returned(GuestReturn::Number(2147483648)));
    assert_eq!(r, Ok(-2147483648));
}

#[test]
fn missing_entry_point_is_a_failure_with_nonzero_exit() {
    let r = run(&StartEvent::NoEntryPoint);
    assert_eq!(r, Err(RunError::MissingEntryPoint));
    assert_eq!(process_exit_code(&r), 1);
}

#[test]
fn trap_is_reported_distinctly_and_nonzero() {
    let r = run(&StartEvent::Trapped(String::from("unreachable executed")));
    assert_eq!(r, Err(RunError::Trapped(String::from("unreachable executed"))));
    assert_eq!(process_exit_code(&r), 1);
}

#[test]
fn other_return_shape_is_unsupported_exit_value() {
    let r = interpret_return(&GuestReturn::Other(String::from("string")));
    assert_eq!(
        r,
        Err(RunError::UnsupportedExitValue(String::from("string")))
    );
    let r = run(&StartEvent::Returned(GuestReturn::Other(String::from(
        "bigint",
    ))));
    assert_eq!(process_exit_code(&r), 1);
}

#[test]
fn state_machine_final_states() {
    assert_eq!(final_state(&StartEvent::NoEntryPoint), ExecState::NotStarted);
    assert_eq!(
        final_state(&StartEvent::Returned(GuestReturn::Undefined)),
        ExecState::Exited(0)
    );
    assert_eq!(
        final_state(&StartEvent::Returned(GuestReturn::Number(4294967301))),
        ExecState::Exited(5)
    );
    assert_eq!(
        final_state(&StartEvent::Trapped(String::from("stack overflow"))),
        ExecState::Trapped(String::from("stack overflow"))
    );
    assert_eq!(
        final_state(&StartEvent::Returned(GuestReturn::Other(String::from(
            "object"
        )))),
        ExecState::Running
    );
}

#[test]
fn cli_holds_path_and_trailing_args() {
    let c = Cli::new(
        String::from("demo.wasm"),
        vec![String::from("a"), String::from("b")],
    );
    assert_eq!(c.wasmfile_path, "demo.wasm");
    assert_eq!(c.wasm_args, vec![String::from("a"), String::from("b")]);
}

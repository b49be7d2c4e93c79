use lv8::context::guest_argv;
use lv8::context::module_name;
use lv8::context::preopen_guest_path;

fn strings(v: &[&str]) -> Vec<String> {
    v.iter().map(|s| String::from(*s)).collect()
}

#[test]
fn module_is_named_conventionally() {
    assert_eq!(module_name(), "this.wasm");
    assert_eq!(preopen_guest_path(), "/");
}

#[test]
fn argv_forwards_everything_after_the_separator() {
    let argv = guest_argv(&strings(&["lv8", "demo.wasm", "--", "a", "b"]));
    assert_eq!(argv, strings(&["this.wasm", "a", "b"]));
}

#[test]
fn argv_without_separator_is_just_the_module_name() {
    let argv = guest_argv(&strings(&["lv8", "demo.wasm"]));
    assert_eq!(argv, strings(&["this.wasm"]));
    let argv = guest_argv(&strings(&[]));
    assert_eq!(argv, strings(&["this.wasm"]));
}

#[test]
fn argv_with_trailing_separator_adds_nothing() {
    let argv = guest_argv(&strings(&["lv8", "demo.wasm", "--"]));
    assert_eq!(argv, strings(&["this.wasm"]));
}

#[test]
fn only_the_first_separator_splits() {
    let argv = guest_argv(&strings(&["lv8", "--", "x", "--", "y"]));
    assert_eq!(argv, strings(&["this.wasm", "x", "--", "y"]));
}

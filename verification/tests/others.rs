//! What the evaluating front end decides when it is asked to clean up.

use rust_script::config::UnstableFlags;
use rust_script::eval::{decide_action, Action, CliError, Request};
use rust_script::ops;

fn clean_request() -> Request {
    Request { clean: true, test: false, bench: false, eval: false, loop_: false }
}

#[test]
fn test_clean_noop() {
    // `--clean -Zpolyfill tests/data/hello_world.rs`, nothing built before.
    assert_eq!(decide_action(clean_request(), &vec![UnstableFlags::Polyfill]), Ok(Action::Clean));
    let command = ops::clean("/cwd/tests/data/hello_world.rs");
    assert_eq!(command.program, "cargo");
    assert_eq!(
        command.args,
        vec!["clean", "--manifest-path", "/cwd/tests/data/hello_world.rs"]
    );
}

#[test]
fn test_clean() {
    // First the script is run, then what was built is removed.
    let run = Request { clean: false, test: false, bench: false, eval: false, loop_: false };
    assert_eq!(decide_action(run, &vec![]), Ok(Action::Run));
    let none: Vec<String> = Vec::new();
    assert_eq!(
        ops::run("/cwd/tests/data/hello_world.rs", &none, false).args,
        vec!["run", "--manifest-path", "/cwd/tests/data/hello_world.rs"]
    );
    assert_eq!(decide_action(clean_request(), &vec![UnstableFlags::Polyfill]), Ok(Action::Clean));
    assert_eq!(
        ops::clean("/cwd/tests/data/hello_world.rs").args,
        vec!["clean", "--manifest-path", "/cwd/tests/data/hello_world.rs"]
    );
}

#[test]
fn clean_needs_its_unstable_flag() {
    assert_eq!(decide_action(clean_request(), &vec![]), Err(CliError::CleanUnstable));
    assert_eq!(
        decide_action(clean_request(), &vec![UnstableFlags::Eval]),
        Err(CliError::CleanUnstable)
    );
}

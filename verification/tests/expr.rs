//! What is decided for an expression that is given on the command line.
//! The build tool is not called here: each test follows one command line as
//! far as the library goes, to the package that is generated and the calls
//! that are planned.

use rust_script::action::{
    after_build, decide_action_for, Environment, Freshness, InputAction, Plan, ToolchainFailure,
};
use rust_script::arguments::{Args, ArgsError, Matches, UnstableFlags};
use rust_script::input::Input;
use rust_script::cache::WriteAction;
use rust_script::session::{exit_code, Outcome};
use rust_script::timing::Timestamp;

const OUTPUT_MARKER_CODE: &str = "println!(\"--output--\");";

fn with_output_marker(e: &str) -> String {
    format!("{}{}", OUTPUT_MARKER_CODE, e)
}

fn environment() -> Environment {
    Environment {
        projects_cache: "/cache/projects".into(),
        binary_cache: "/cache/binaries".into(),
        current_dir: "/cwd".into(),
        inside_rustup: false,
        backtrace_chosen: false,
        force_color: false,
        exe_suffix: "".into(),
    }
}

fn matches(script: &str, force: bool, flags: Vec<UnstableFlags>) -> Matches {
    Matches {
        script_and_args: vec![script.to_string()],
        features: vec![],
        expr: true,
        pkg_path: None,
        cargo_output: false,
        clear_cache: false,
        release: false,
        force,
        test: false,
        bench: false,
        toolchain_version: None,
        unstable_flags: flags,
    }
}

/// The flags `-Zexpr -e <script>`, with `--force` where `force` holds.
fn expr_action(script: &str, force: bool) -> InputAction {
    let args = Args::parse(matches(script, force, vec![UnstableFlags::Expr])).unwrap();
    assert!(args.expr);
    assert!(args.script_args.is_empty());
    let input = Input::Expr(args.script.clone().unwrap());
    let action = decide_action_for(&input, &args, &environment()).unwrap();
    assert_eq!(action.safe_name, "expr");
    assert!(action.using_cache);
    assert_eq!(action.pkg_path, format!("/cache/projects/{}", input.compute_id()));
    assert_eq!(action.bin_name, format!("expr_{}", input.compute_id()));
    assert!(action.script.contains(&format!("    match {{{}}} {{\n", script)));
    assert!(action.manifest.contains(&format!("name = \"{}\"", action.bin_name)));
    assert!(action.manifest.contains("path = \"expr.rs\""));
    action
}

fn at(seconds: u64) -> Option<Timestamp> {
    Some(Timestamp { seconds, nanos: 0 })
}

fn no_args() -> Vec<String> {
    Vec::new()
}

#[test]
fn test_expr_0() {
    let action = expr_action(&with_output_marker("0"), false);
    // Nothing was built before: the package is built, and then run.
    match action.cargo(&environment(), &no_args(), None, at(10), at(10)) {
        Plan::BuildThenExecute(build, run) => {
            assert_eq!(build.program, "cargo");
            assert_eq!(build.args, vec!["build", "-q", "--target-dir", "/cache/binaries"]);
            assert_eq!(build.current_dir, Some(action.pkg_path.clone()));
            assert_eq!(run.program, format!("/cache/binaries/debug/{}", action.bin_name));
            assert!(run.args.is_empty());
        }
        other => panic!("{:?}", other),
    }
}

#[test]
fn test_expr_force_rebuild() {
    let script = with_output_marker("1+1");
    let action = expr_action(&script, false);
    // First run: there is no program yet.
    assert_eq!(action.freshness(None, at(10), at(10)), Freshness::Rebuild);
    // Second run: the program is newer than what it was built from.
    assert_eq!(action.freshness(at(20), at(10), at(10)), Freshness::Fresh);
    assert!(matches!(
        action.cargo(&environment(), &no_args(), at(20), at(10), at(10)),
        Plan::Execute(_)
    ));
    // Third run, with `--force`: the program is built whatever its age.
    let forced = expr_action(&script, true);
    assert!(forced.force_compile);
    // The source is written again although it has not changed, the manifest
    // is not.
    assert_eq!(
        forced.gen_pkg_and_compile(Some(&forced.manifest), Some(&forced.script)),
        (WriteAction::Unchanged, WriteAction::Changed)
    );
    assert_eq!(
        action.gen_pkg_and_compile(Some(&action.manifest), Some(&action.script)),
        (WriteAction::Unchanged, WriteAction::Unchanged)
    );
    assert_eq!(
        action.gen_pkg_and_compile(None, Some("fn main() {}")),
        (WriteAction::Changed, WriteAction::Changed)
    );
    assert_eq!(forced.pkg_path, action.pkg_path);
    assert_eq!(forced.freshness(at(20), at(10), at(10)), Freshness::Rebuild);
    assert!(matches!(
        forced.cargo(&environment(), &no_args(), at(20), at(10), at(10)),
        Plan::BuildThenExecute(_, _)
    ));
}

#[test]
fn test_expr_comma() {
    expr_action(&with_output_marker("[1, 2, 3]"), false);
}

#[test]
fn test_expr_dnc() {
    let action = expr_action("swing-begin", false);
    assert!(matches!(
        action.cargo(&environment(), &no_args(), None, at(10), at(10)),
        Plan::BuildThenExecute(_, _)
    ));
    // The build fails, and nothing is run.
    assert_eq!(after_build(Some(101)), Err(ToolchainFailure(101)));
    assert_ne!(exit_code(Outcome::Failed), 0);
}

#[test]
fn test_expr_temporary() {
    expr_action(&with_output_marker("[1].iter().max()"), false);
}

#[test]
fn test_expr_panic() {
    expr_action(&with_output_marker("panic!()"), false);
    // The build succeeds; the program panics, and its code is handed on.
    assert_eq!(after_build(Some(0)), Ok(()));
    assert_eq!(exit_code(Outcome::Ran(Some(101))), 101);
}

#[test]
fn test_expr_qmark() {
    let action = expr_action(&with_output_marker("\"42\".parse::<i32>()?.wrapping_add(1)"), false);
    assert!(action.script.contains("fn try_main() -> Result<(), Box<dyn std::error::Error>> {"));
}

#[test]
fn expr_needs_its_unstable_flag() {
    let r = Args::parse(matches("1+1", false, vec![UnstableFlags::Test]));
    assert_eq!(r.err(), Some(ArgsError::ExprUnstable));
}

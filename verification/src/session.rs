//! The course of one run of the program, as far as it is decided and not
//! done.

use crate::input::{package_name_of, Input};
use crate::manifest::base_dir;
use crate::text::owned;
use vstd::prelude::*;

verus! {

/// The code that the program ends with when it fails before anything was
/// built.
pub const FAILURE_CODE: i32 = 1;

/// What a run begins with.
#[derive(Debug, Clone, Copy, PartialEq, Eq, Structural)]
pub enum Startup {
    /// The cache is cleared, and that is all.
    ClearCache,
    /// The cache is cleared, and then the script is run.
    ClearCacheAndRun,
    /// The script is run.
    Run,
    /// There is nothing to do.
    Nothing,
}

/// Decides what a run begins with, from whether the cache is to be cleared
/// and whether a script was named.
pub fn startup(clear_cache: bool, has_script: bool) -> (r: Startup)
    ensures
        r == match (clear_cache, has_script) {
            (true, false) => Startup::ClearCache,
            (true, true) => Startup::ClearCacheAndRun,
            (false, true) => Startup::Run,
            (false, false) => Startup::Nothing,
        },
{
    match (clear_cache, has_script) {
        (true, false) => Startup::ClearCache,
        (true, true) => Startup::ClearCacheAndRun,
        (false, true) => Startup::Run,
        (false, false) => Startup::Nothing,
    }
}

/// Whether old entries are cleared out of the cache once the script has
/// been dealt with, whether it ran or not: always, unless the whole cache
/// was cleared at the start.
pub fn gc_after_run(clear_cache: bool) -> (gc: bool)
    ensures
        gc == !clear_cache,
{
    !clear_cache
}

/// How a run has ended.
#[derive(Debug, Clone, Copy, PartialEq, Eq, Structural)]
pub enum Outcome {
    /// There was nothing to run, and nothing went wrong.
    Done,
    /// The program was run; the field is the code that it ended with, if it
    /// ended with one.
    Ran(Option<i32>),
    /// Something went wrong before the program could be run.
    Failed,
}

/// The code that the program ends with: 0 where nothing went wrong, the code
/// of the script's program where that was run, and `FAILURE_CODE` where it
/// could not be or ended without a code.
pub fn exit_code(outcome: Outcome) -> (code: i32)
    ensures
        code == match outcome {
            Outcome::Done => 0,
            Outcome::Ran(Some(c)) => c,
            Outcome::Ran(None) => FAILURE_CODE,
            Outcome::Failed => FAILURE_CODE,
        },
{
    match outcome {
        Outcome::Done => 0,
        Outcome::Ran(Some(c)) => c,
        Outcome::Ran(None) => FAILURE_CODE,
        Outcome::Failed => FAILURE_CODE,
    }
}

/// What the build and the program are told about the script.
#[derive(Debug, PartialEq, Eq)]
pub struct ScriptEnvironment {
    /// The path of the script, empty for an expression.
    pub path: String,
    /// The name that the script goes by.
    pub safe_name: String,
    /// The name of its package.
    pub package_name: String,
    /// The directory that its relative paths are meant from.
    pub base_path: String,
}

/// Gathers what the build and the program are told about `input`. There is
/// nothing to tell of a file whose path has no parent.
pub fn script_environment(input: &Input, current_dir: &str) -> (r: Option<ScriptEnvironment>)
    ensures
        match r {
            Some(e) => {
                &&& e.path@ == match input {
                    Input::File(_, path, _) => path@,
                    Input::Expr(_) => Seq::<char>::empty(),
                }
                &&& e.safe_name@ == input.name()
                &&& e.package_name@ == package_name_of(input.name())
                &&& Some(e.base_path@) == base_dir(*input, current_dir@)
            },
            None => base_dir(*input, current_dir@) is None,
        },
{
    let base_path = match input.base_path(current_dir) {
        Some(dir) => dir,
        None => {
            return None;
        },
    };
    let path = match input.path() {
        Some(p) => owned(p),
        None => String::new(),
    };
    Some(
        ScriptEnvironment {
            path,
            safe_name: owned(input.safe_name()),
            package_name: input.package_name(),
            base_path,
        },
    )
}

} // verus!

//! The decisions of the evaluating front end: what the user has asked for,
//! how much is printed, and how a failure is reported.

use crate::config::{default_target_dir, UnstableFlags};
use crate::paths::path_join;
use crate::text::{option_view, owned, strings_view};
use vstd::prelude::*;

verus! {

/// The code that the front end ends with when the build tool fails without
/// a code of its own.
pub const TOOL_FAILURE_CODE: i32 = 101;

/// The script that stands for the standard input.
pub const STDIN_SCRIPT: &'static str = "-";

/// What the front end is asked to do.
#[derive(Debug, Clone, Copy, PartialEq, Eq, Structural)]
pub enum Action {
    Run,
    Eval,
    Loop,
    Clean,
    Test,
    Bench,
}

/// Which of the options that choose an action were given.
#[derive(Debug, Clone, Copy, PartialEq, Eq, Structural)]
pub struct Request {
    pub clean: bool,
    pub test: bool,
    pub bench: bool,
    pub eval: bool,
    pub loop_: bool,
}

/// Why the front end cannot do what it was asked.
#[derive(Debug, Clone, Copy, PartialEq, Eq, Structural)]
pub enum CliError {
    /// `--clean` was given without the unstable feature `polyfill`.
    CleanUnstable,
    /// `--test` was given without the unstable feature `polyfill`.
    TestUnstable,
    /// `--bench` was given without the unstable feature `polyfill`.
    BenchUnstable,
    /// An expression was given without the unstable feature `eval`.
    EvalUnstable,
    /// A closure was given without the unstable feature `loop`.
    LoopUnstable,
    /// No script was named, and none can come from the standard input.
    ScriptRequired,
    /// No directory was named for what is built, and none can be found.
    NoTargetDir,
}

impl CliError {
    /// The error in words.
    pub open spec fn text(self) -> Seq<char> {
        match self {
            CliError::CleanUnstable => "`--clean` is unstable and requires `-Zpolyfill`"@,
            CliError::TestUnstable => "`--test` is unstable and requires `-Zpolyfill`"@,
            CliError::BenchUnstable => "`--bench` is unstable and requires `-Zpolyfill`"@,
            CliError::EvalUnstable => "`--eval` is unstable and requires `-Zeval`"@,
            CliError::LoopUnstable => "`--loop` is unstable and requires `-Zloop`"@,
            CliError::ScriptRequired => "<PATH_RS> is required"@,
            CliError::NoTargetDir => "Cannot get target directory"@,
        }
    }

    /// The error in words.
    pub fn message(&self) -> (r: String)
        ensures
            r@ == self.text(),
    {
        match self {
            CliError::CleanUnstable => owned("`--clean` is unstable and requires `-Zpolyfill`"),
            CliError::TestUnstable => owned("`--test` is unstable and requires `-Zpolyfill`"),
            CliError::BenchUnstable => owned("`--bench` is unstable and requires `-Zpolyfill`"),
            CliError::EvalUnstable => owned("`--eval` is unstable and requires `-Zeval`"),
            CliError::LoopUnstable => owned("`--loop` is unstable and requires `-Zloop`"),
            CliError::ScriptRequired => owned("<PATH_RS> is required"),
            CliError::NoTargetDir => owned("Cannot get target directory"),
        }
    }
}

/// The action that `request` asks for: the first that it names of clean,
/// test, bench, eval and loop, and run where it names none.
pub open spec fn asked(request: Request) -> Action {
    if request.clean {
        Action::Clean
    } else if request.test {
        Action::Test
    } else if request.bench {
        Action::Bench
    } else if request.eval {
        Action::Eval
    } else if request.loop_ {
        Action::Loop
    } else {
        Action::Run
    }
}

/// The unstable feature that `action` needs, and the error that its lack
/// is.
pub open spec fn needs(action: Action) -> Option<(UnstableFlags, CliError)> {
    match action {
        Action::Run => None,
        Action::Clean => Some((UnstableFlags::Polyfill, CliError::CleanUnstable)),
        Action::Test => Some((UnstableFlags::Polyfill, CliError::TestUnstable)),
        Action::Bench => Some((UnstableFlags::Polyfill, CliError::BenchUnstable)),
        Action::Eval => Some((UnstableFlags::Eval, CliError::EvalUnstable)),
        Action::Loop => Some((UnstableFlags::Loop, CliError::LoopUnstable)),
    }
}

/// Whether `flags` holds `flag`.
pub fn has_flag(flags: &Vec<UnstableFlags>, flag: UnstableFlags) -> (b: bool)
    ensures
        b == flags@.contains(flag),
{
    let mut i: usize = 0;
    while i < flags.len()
        invariant
            i <= flags.len(),
            forall|j: int| 0 <= j < i ==> flags@[j] != flag,
        decreases flags.len() - i,
    {
        if flags[i] == flag {
            return true;
        }
        i += 1;
    }
    false
}

/// What the front end does on `request` when the unstable features `flags`
/// were asked for: the action that the request asks for, unless that needs
/// an unstable feature that is not among them.
pub open spec fn decided(request: Request, flags: Seq<UnstableFlags>) -> Result<Action, CliError> {
    match needs(asked(request)) {
        Some((flag, error)) => if flags.contains(flag) {
            Ok(asked(request))
        } else {
            Err(error)
        },
        None => Ok(asked(request)),
    }
}

/// Decides what the front end does. An action that is not yet stable is
/// refused unless the unstable feature that it needs was asked for.
pub fn decide_action(request: Request, flags: &Vec<UnstableFlags>) -> (r: Result<Action, CliError>)
    ensures
        r == decided(request, flags@),
{
    if request.clean {
        if has_flag(flags, UnstableFlags::Polyfill) {
            Ok(Action::Clean)
        } else {
            Err(CliError::CleanUnstable)
        }
    } else if request.test {
        if has_flag(flags, UnstableFlags::Polyfill) {
            Ok(Action::Test)
        } else {
            Err(CliError::TestUnstable)
        }
    } else if request.bench {
        if has_flag(flags, UnstableFlags::Polyfill) {
            Ok(Action::Bench)
        } else {
            Err(CliError::BenchUnstable)
        }
    } else if request.eval {
        if has_flag(flags, UnstableFlags::Eval) {
            Ok(Action::Eval)
        } else {
            Err(CliError::EvalUnstable)
        }
    } else if request.loop_ {
        if has_flag(flags, UnstableFlags::Loop) {
            Ok(Action::Loop)
        } else {
            Err(CliError::LoopUnstable)
        }
    } else {
        Ok(Action::Run)
    }
}

/// The script that is run: the one that was named or, where none was and
/// the standard input is no terminal, the standard input.
pub fn script_or_stdin(script: Option<String>, stdin_is_terminal: bool) -> (r: Result<
    String,
    CliError,
>)
    ensures
        match script {
            Some(s) => r == Ok::<String, CliError>(s),
            None => if stdin_is_terminal {
                r == Err::<String, CliError>(CliError::ScriptRequired)
            } else {
                r is Ok && r->Ok_0@ == STDIN_SCRIPT@
            },
        },
{
    match script {
        Some(s) => Ok(s),
        None => {
            if stdin_is_terminal {
                Err(CliError::ScriptRequired)
            } else {
                Ok(owned(STDIN_SCRIPT))
            }
        },
    }
}

/// How much the build tool prints, as its level of detail and whether it
/// is quiet, when `-v` was given `verbose` times. A run is quiet without
/// `-v`, and takes one `-v` to print as much as any other action prints
/// without.
pub fn verbosity(verbose: u8, action: Action) -> (r: (u32, bool))
    ensures
        r == if action == Action::Run {
            if verbose == 0 {
                (0u32, true)
            } else {
                ((verbose - 1) as u32, false)
            }
        } else {
            (verbose as u32, false)
        },
{
    if matches!(action, Action::Run) {
        if verbose == 0 {
            (0, true)
        } else {
            ((verbose - 1) as u32, false)
        }
    } else {
        (verbose as u32, false)
    }
}

/// The directory that the build tool puts what it builds in: the one that
/// was named on the command line, or else the one that the environment
/// names, or else the default under `cargo_home`. Where all three are
/// missing, there is none.
pub open spec fn target_dir_of(
    named: Option<Seq<char>>,
    from_env: Option<Seq<char>>,
    cargo_home: Option<Seq<char>>,
) -> Option<Seq<char>> {
    match (named, from_env, cargo_home) {
        (Some(d), _, _) => Some(d),
        (None, Some(d), _) => Some(d),
        (None, None, Some(home)) => Some(path_join(path_join(home, "shell"@), "target"@)),
        (None, None, None) => None,
    }
}

/// Chooses the directory that the build tool puts what it builds in.
pub fn choose_target_dir(
    named: Option<String>,
    from_env: Option<String>,
    cargo_home: Option<String>,
) -> (dir: Option<String>)
    ensures
        option_view(dir) == target_dir_of(
            option_view(named),
            option_view(from_env),
            option_view(cargo_home),
        ),
{
    match named {
        Some(d) => Some(d),
        None => match from_env {
            Some(d) => Some(d),
            None => match cargo_home {
                Some(home) => Some(default_target_dir(home.as_str())),
                None => None,
            },
        },
    }
}

/// How the failure of a run is reported.
#[derive(Debug, Clone, Copy, PartialEq, Eq, Structural)]
pub struct RunError {
    /// The code that the front end ends with.
    pub code: i32,
    /// The error is printed.
    pub shown: bool,
}

/// Decides how the failure of a run is reported.
///
/// `process` is missing where the failure is not that of a program that was
/// run, and holds the code that the program ended with, if it ended with
/// one. The code of the program is handed on; without one the front end
/// ends with `TOOL_FAILURE_CODE`. The error is printed unless the program
/// has ended with a code and the front end is quiet.
pub fn to_run_error(process: Option<Option<i32>>, quiet: bool) -> (r: RunError)
    ensures
        r == match process {
            Some(Some(code)) => RunError { code, shown: !quiet },
            _ => RunError { code: TOOL_FAILURE_CODE, shown: true },
        },
{
    match process {
        Some(Some(code)) => RunError { code, shown: !quiet },
        _ => RunError { code: TOOL_FAILURE_CODE, shown: true },
    }
}

/// Whether a backtrace is asked of a script that is run: unless the user
/// has said whether one is wanted.
pub fn default_backtrace(chosen: bool) -> (set: bool)
    ensures
        set == !chosen,
{
    !chosen
}

/// What the front end was started with.
#[derive(Debug)]
pub struct Invocation {
    /// Which of the options that choose an action were given.
    pub request: Request,
    /// The unstable features that were asked for.
    pub unstable_flags: Vec<UnstableFlags>,
    /// The script, and after it the arguments that are meant for it.
    pub script_and_args: Vec<String>,
    /// A build with optimization was asked for.
    pub release: bool,
    /// How often `-v` was given.
    pub verbose: u8,
    /// The standard input is a terminal.
    pub stdin_is_terminal: bool,
    /// The directory for what is built, as named on the command line.
    pub target_dir: Option<String>,
    /// The directory for what is built, as the environment names it.
    pub env_target_dir: Option<String>,
    /// The home directory of the build tool, where it can be found.
    pub cargo_home: Option<String>,
    /// The user has said whether a backtrace is wanted.
    pub backtrace_chosen: bool,
}

/// What the front end has decided to do.
#[derive(Debug, PartialEq, Eq)]
pub struct Execution {
    pub action: Action,
    /// The script: a path, `-` for the standard input, or the text of an
    /// expression or closure.
    pub script: String,
    /// The arguments that are meant for the script.
    pub script_args: Vec<String>,
    pub release: bool,
    /// The level of detail in which the build tool prints.
    pub verbose: u32,
    /// The build tool prints nothing of its own.
    pub quiet: bool,
    /// The directory for what is built.
    pub target_dir: String,
    /// A backtrace is asked of the script.
    pub set_backtrace: bool,
}

/// What stands in the way of `inv`, if anything: the first of these. The
/// action is refused; no script is named, and the standard input is a
/// terminal; there is no directory for what is built.
pub open spec fn exec_error(inv: Invocation) -> Option<CliError> {
    match decided(inv.request, inv.unstable_flags@) {
        Err(e) => Some(e),
        Ok(_) => if inv.script_and_args@.len() == 0 && inv.stdin_is_terminal {
            Some(CliError::ScriptRequired)
        } else if target_dir_of(
            option_view(inv.target_dir),
            option_view(inv.env_target_dir),
            option_view(inv.cargo_home),
        ) is None {
            Some(CliError::NoTargetDir)
        } else {
            None
        },
    }
}

/// Decides what the front end does with what it was started with.
///
/// The script is the first of `script_and_args`, and the standard input
/// where there is none; what follows it is meant for the script. A
/// backtrace is asked of a script that is run, unless the user has said
/// whether one is wanted.
pub fn exec(inv: Invocation) -> (r: Result<Execution, CliError>)
    ensures
        match r {
            Err(e) => exec_error(inv) == Some(e),
            Ok(x) => {
                &&& exec_error(inv) is None
                &&& Ok::<Action, CliError>(x.action) == decided(inv.request, inv.unstable_flags@)
                &&& x.script@ == if inv.script_and_args@.len() > 0 {
                    inv.script_and_args@[0]@
                } else {
                    STDIN_SCRIPT@
                }
                &&& strings_view(x.script_args@) == if inv.script_and_args@.len() > 0 {
                    strings_view(inv.script_and_args@).skip(1)
                } else {
                    Seq::empty()
                }
                &&& x.release == inv.release
                &&& (x.verbose, x.quiet) == if x.action == Action::Run {
                    if inv.verbose == 0 {
                        (0u32, true)
                    } else {
                        ((inv.verbose - 1) as u32, false)
                    }
                } else {
                    (inv.verbose as u32, false)
                }
                &&& Some(x.target_dir@) == target_dir_of(
                    option_view(inv.target_dir),
                    option_view(inv.env_target_dir),
                    option_view(inv.cargo_home),
                )
                &&& x.set_backtrace == (x.action == Action::Run && !inv.backtrace_chosen)
            },
        },
{
    let action = match decide_action(inv.request, &inv.unstable_flags) {
        Ok(a) => a,
        Err(e) => {
            return Err(e);
        },
    };
    let mut rest = inv.script_and_args;
    let named = if rest.len() > 0 {
        let first = rest.remove(0);
        proof {
            assert(rest@ =~= inv.script_and_args@.skip(1));
            assert(strings_view(rest@) =~= strings_view(inv.script_and_args@).skip(1));
        }
        Some(first)
    } else {
        proof {
            assert(strings_view(rest@) =~= Seq::<Seq<char>>::empty());
        }
        None
    };
    let script = match script_or_stdin(named, inv.stdin_is_terminal) {
        Ok(s) => s,
        Err(e) => {
            return Err(e);
        },
    };
    let target_dir = match choose_target_dir(inv.target_dir, inv.env_target_dir, inv.cargo_home) {
        Some(d) => d,
        None => {
            return Err(CliError::NoTargetDir);
        },
    };
    let (verbose, quiet) = verbosity(inv.verbose, action);
    let set_backtrace = matches!(action, Action::Run) && default_backtrace(inv.backtrace_chosen);
    Ok(
        Execution {
            action,
            script,
            script_args: rest,
            release: inv.release,
            verbose,
            quiet,
            target_dir,
            set_backtrace,
        },
    )
}

} // verus!

//! What the evaluating front end has the build tool do: run a script, a
//! single expression or a filter over lines, test it, benchmark it, or clean
//! up after it.

use crate::action::CommandLine;
use crate::hasher::{blake3_hex, content_hash_parts, hash_parts};
use crate::paths::{join, path_join};
use crate::text::{concat, copy_strings, owned, replace_all, replaced, strings_view};
use vstd::prelude::*;
use vstd::utf8::encode_utf8;

verus! {

/// What stands for the script in a template.
pub const SCRIPT_MARK: &'static str = "#{script}";

/// The program that evaluates an expression and prints what it gives.
pub const EVAL_TEMPLATE: &'static str = r#"
#![allow(unreachable_code)]
use std::any::{Any, TypeId};
fn main() {
    let exit_code = match try_main() {
        Ok(()) => None,
        Err(e) => {
            use std::io::{self, Write};
            let _ = writeln!(io::stderr(), "Error: {}", e);
            Some(1)
        },
    };
    if let Some(exit_code) = exit_code {
        std::process::exit(exit_code);
    }
}
fn try_main() -> Result<(), Box<dyn std::error::Error>> {
    fn _rust_script_is_empty_tuple<T: ?Sized + Any>(_s: &T) -> bool {
        TypeId::of::<()>() == TypeId::of::<T>()
    }
    match {#{script}} {
        __rust_script_expr if !_rust_script_is_empty_tuple(&__rust_script_expr) => println!("{:?}", __rust_script_expr),
        _ => {}
    }
    Ok(())
}
"#;

/// The program that calls a closure on every line that it reads.
pub const LOOP_TEMPLATE: &'static str = r#"
#![allow(unused_imports)]
#![allow(unused_braces)]
use std::any::Any;
use std::io::prelude::*;
fn main() {
    let mut closure = enforce_closure(
{#{script}}
    );
    let mut line_buffer = String::new();
    let stdin = std::io::stdin();
    loop {
        line_buffer.clear();
        let read_res = stdin.read_line(&mut line_buffer).unwrap_or(0);
        if read_res == 0 { break }
        let output = closure(&line_buffer);
        let display = {
            let output_any: &dyn Any = &output;
            !output_any.is::<()>()
        };
        if display {
            println!("{:?}", output);
        }
    }
}
fn enforce_closure<F, T>(closure: F) -> F
where F: FnMut(&str) -> T, T: 'static {
    closure
}
"#;

/// A program that is written to a file of its own before it is built.
#[derive(Debug, PartialEq, Eq)]
pub struct TempScript {
    /// The directory that the file lies in.
    pub dir: String,
    /// The path of the file.
    pub path: String,
    /// The text of the program.
    pub main: String,
}

/// The directory in which a program with the text `main` is kept: under
/// `target_dir`, in `area`, under the first two digits of the hash of the
/// text, its next two and its others.
pub open spec fn temp_dir(target_dir: Seq<char>, area: Seq<char>, main: Seq<char>) -> Seq<char> {
    let parts = hash_parts(blake3_hex(encode_utf8(main)));
    path_join(path_join(path_join(path_join(target_dir, area), parts.0), parts.1), parts.2)
}

/// Says where a program with the text `main` is written before it is
/// built: into the file `id` with the extension `rs`, in a directory that is
/// named by a hash of the text. The same text always goes to the same
/// place, and another text to another.
pub fn temp_script(target_dir: &str, area: &str, main: &str, id: &str) -> (r: TempScript)
    ensures
        r.main@ == main@,
        r.dir@ == temp_dir(target_dir@, area@, main@),
        r.path@ == path_join(r.dir@, id@ + ".rs"@),
{
    let (a, b, c) = content_hash_parts(main.as_bytes());
    let d0 = join(target_dir, area);
    let d1 = join(d0.as_str(), a.as_str());
    let d2 = join(d1.as_str(), b.as_str());
    let dir = join(d2.as_str(), c.as_str());
    let file = concat(id, ".rs");
    let path = join(dir.as_str(), file.as_str());
    TempScript { dir, path, main: owned(main) }
}

/// The arguments of the build tool that run the package of `manifest_path`
/// with `args`: the command, the manifest, `--release` for a build with
/// optimization, and, where there are any, `--` and the arguments as they
/// are.
pub open spec fn run_args(manifest_path: Seq<char>, args: Seq<Seq<char>>, release: bool) -> Seq<
    Seq<char>,
> {
    seq!["run"@, "--manifest-path"@, manifest_path] + (if release {
        seq!["--release"@]
    } else {
        Seq::empty()
    }) + (if args.len() > 0 {
        seq!["--"@] + args
    } else {
        Seq::empty()
    })
}

/// The call of the build tool with `args`.
fn tool(args: Vec<String>) -> (r: CommandLine)
    ensures
        r.program@ == "cargo"@,
        r.args == args,
        r.current_dir is None,
        !r.backtrace,
{
    CommandLine { program: owned("cargo"), args, current_dir: None, backtrace: false }
}

/// What the arguments of the build tool begin with: the command and the
/// manifest.
fn begin(command: &str, manifest_path: &str) -> (r: Vec<String>)
    ensures
        strings_view(r@) == seq![command@, "--manifest-path"@, manifest_path@],
{
    let mut v: Vec<String> = Vec::new();
    v.push(owned(command));
    v.push(owned("--manifest-path"));
    v.push(owned(manifest_path));
    proof {
        assert(strings_view(v@) =~= seq![command@, "--manifest-path"@, manifest_path@]);
    }
    v
}

/// The call of the build tool that builds the package of `manifest_path`
/// and runs it with `args`.
pub fn run(manifest_path: &str, args: &Vec<String>, release: bool) -> (r: CommandLine)
    ensures
        r.program@ == "cargo"@,
        strings_view(r.args@) == run_args(manifest_path@, strings_view(args@), release),
        r.current_dir is None,
        !r.backtrace,
{
    let mut v = begin("run", manifest_path);
    if release {
        let s = owned("--release");
        proof {
            assert(strings_view(v@.push(s)) =~= strings_view(v@).push(s@));
        }
        v.push(s);
    }
    if args.len() > 0 {
        let s = owned("--");
        proof {
            assert(strings_view(v@.push(s)) =~= strings_view(v@).push(s@));
        }
        v.push(s);
        let mut rest = copy_strings(args);
        proof {
            assert(strings_view(v@ + rest@) =~= strings_view(v@) + strings_view(rest@));
        }
        v.append(&mut rest);
    }
    proof {
        assert(strings_view(v@) =~= run_args(manifest_path@, strings_view(args@), release));
    }
    tool(v)
}

/// The call of the build tool that builds the tests of the package of
/// `manifest_path` and runs them.
pub fn test(manifest_path: &str) -> (r: CommandLine)
    ensures
        r.program@ == "cargo"@,
        strings_view(r.args@) == seq!["test"@, "--manifest-path"@, manifest_path@],
        r.current_dir is None,
        !r.backtrace,
{
    tool(begin("test", manifest_path))
}

/// The call of the build tool that builds the benchmarks of the package of
/// `manifest_path` and runs them.
pub fn bench(manifest_path: &str) -> (r: CommandLine)
    ensures
        r.program@ == "cargo"@,
        strings_view(r.args@) == seq!["bench"@, "--manifest-path"@, manifest_path@],
        r.current_dir is None,
        !r.backtrace,
{
    tool(begin("bench", manifest_path))
}

/// The call of the build tool that removes what was built for the package
/// of `manifest_path`.
pub fn clean(manifest_path: &str) -> (r: CommandLine)
    ensures
        r.program@ == "cargo"@,
        strings_view(r.args@) == seq!["clean"@, "--manifest-path"@, manifest_path@],
        r.current_dir is None,
        !r.backtrace,
{
    tool(begin("clean", manifest_path))
}

/// Prepares the evaluation of the expression `script`: the program that
/// evaluates it, where under `target_dir` and `area` that is written, and
/// the call that runs it.
pub fn eval(target_dir: &str, area: &str, script: &str, release: bool) -> (r: (
    TempScript,
    CommandLine,
))
    ensures
        r.0.main@ == replaced(EVAL_TEMPLATE@, SCRIPT_MARK@, script@),
        r.0.dir@ == temp_dir(target_dir@, area@, r.0.main@),
        r.0.path@ == path_join(r.0.dir@, "eval"@ + ".rs"@),
        r.1.program@ == "cargo"@,
        strings_view(r.1.args@) == run_args(r.0.path@, Seq::empty(), release),
{
    let main = replace_all(EVAL_TEMPLATE, SCRIPT_MARK, script);
    let temp = temp_script(target_dir, area, main.as_str(), "eval");
    let none: Vec<String> = Vec::new();
    proof {
        assert(strings_view(none@) =~= Seq::<Seq<char>>::empty());
    }
    let command = run(temp.path.as_str(), &none, release);
    (temp, command)
}

/// Prepares the run of the closure `script` over the lines of the input:
/// the program that calls it, where under `target_dir` and `area` that is
/// written, and the call that runs it.
pub fn loop_(target_dir: &str, area: &str, script: &str, release: bool) -> (r: (
    TempScript,
    CommandLine,
))
    ensures
        r.0.main@ == replaced(LOOP_TEMPLATE@, SCRIPT_MARK@, script@),
        r.0.dir@ == temp_dir(target_dir@, area@, r.0.main@),
        r.0.path@ == path_join(r.0.dir@, "loop"@ + ".rs"@),
        r.1.program@ == "cargo"@,
        strings_view(r.1.args@) == run_args(r.0.path@, Seq::empty(), release),
{
    let main = replace_all(LOOP_TEMPLATE, SCRIPT_MARK, script);
    let temp = temp_script(target_dir, area, main.as_str(), "loop");
    let none: Vec<String> = Vec::new();
    proof {
        assert(strings_view(none@) =~= Seq::<Seq<char>>::empty());
    }
    let command = run(temp.path.as_str(), &none, release);
    (temp, command)
}

/// The arguments that tell the build tool how much to print: `--quiet`
/// where it is to print nothing of its own, and then `--verbose` once for
/// each level of detail.
pub open spec fn verbosity_args(level: nat, quiet: bool) -> Seq<Seq<char>>
    decreases level,
{
    if level == 0 {
        if quiet {
            seq!["--quiet"@]
        } else {
            Seq::empty()
        }
    } else {
        verbosity_args((level - 1) as nat, quiet).push("--verbose"@)
    }
}

/// `args` with `extra` put behind the command that `args` begins with.
pub open spec fn behind_command(args: Seq<Seq<char>>, extra: Seq<Seq<char>>) -> Seq<Seq<char>> {
    if args.len() == 0 {
        extra
    } else {
        seq![args[0]] + extra + args.skip(1)
    }
}

/// Tells the call `line` of the build tool how much to print. The
/// arguments for that go directly behind the command, before anything that
/// is meant for the script.
pub fn with_verbosity(line: CommandLine, level: u32, quiet: bool) -> (r: CommandLine)
    ensures
        r.program == line.program,
        r.current_dir == line.current_dir,
        r.backtrace == line.backtrace,
        strings_view(r.args@) == behind_command(
            strings_view(line.args@),
            verbosity_args(level as nat, quiet),
        ),
{
    let mut extra: Vec<String> = Vec::new();
    if quiet {
        extra.push(owned("--quiet"));
    }
    proof {
        assert(strings_view(extra@) =~= verbosity_args(0, quiet));
    }
    let mut i: u32 = 0;
    while i < level
        invariant
            i <= level,
            strings_view(extra@) == verbosity_args(i as nat, quiet),
        decreases level - i,
    {
        let flag = owned("--verbose");
        proof {
            assert(strings_view(extra@.push(flag)) =~= strings_view(extra@).push(flag@));
        }
        extra.push(flag);
        i += 1;
    }
    let mut args = line.args;
    let ghost given = args@;
    let out = if args.len() == 0 {
        extra
    } else {
        let mut rest = args.split_off(1);
        proof {
            assert(strings_view(args@ + extra@ + rest@) =~= seq![strings_view(given)[0]]
                + strings_view(extra@) + strings_view(given).skip(1));
        }
        args.append(&mut extra);
        args.append(&mut rest);
        args
    };
    CommandLine {
        program: line.program,
        args: out,
        current_dir: line.current_dir,
        backtrace: line.backtrace,
    }
}

} // verus!

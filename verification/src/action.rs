//! What is done with an input: where its package is generated, how the
//! build tool is called, and whether it has to be called at all.

use crate::arguments::{Args, BuildKind};
use crate::cache::{write_decision, write_if_changed, WriteAction};
use crate::input::{package_name_of, Input};
use crate::manifest::{bin_name_of, split, split_input, ManifestError, ManifestFault};
use crate::paths::{join, path_join};
use crate::text::{concat, copy_strings, option_view, owned, strings_view};
use crate::timing::Timestamp;
use vstd::prelude::*;

verus! {

/// The name of the manifest in the directory of a package.
pub const MANIFEST_FILE: &'static str = "Cargo.toml";

/// What the name of a source file ends with.
pub const SOURCE_SUFFIX: &'static str = ".rs";

/// The toolchain that benchmarks are built with where the user names none.
pub const BENCH_TOOLCHAIN: &'static str = "nightly";

/// What the surroundings of the program are like.
#[derive(Debug)]
pub struct Environment {
    /// The directory that the generated packages are kept in.
    pub projects_cache: String,
    /// The directory that the build tool puts what it builds in.
    pub binary_cache: String,
    /// The directory that the program was started in.
    pub current_dir: String,
    /// The program was started by `rustup`.
    pub inside_rustup: bool,
    /// The user has said whether a backtrace is wanted.
    pub backtrace_chosen: bool,
    /// The build tool is to use colour whatever it writes to.
    pub force_color: bool,
    /// What the name of a program ends with on this platform.
    pub exe_suffix: String,
}

/// What has to be the same for a program that was built before to be still
/// of use.
#[derive(Debug)]
pub struct PackageMetadata {
    /// The program is built without optimization.
    pub debug: bool,
}

/// What to do with the input that the user has given.
#[derive(Debug)]
pub struct InputAction {
    /// Always show what the build tool prints.
    pub cargo_output: bool,
    /// Build even if nothing seems to have changed.
    pub force_compile: bool,
    /// The directory that the package is generated in.
    pub pkg_path: String,
    /// That directory lies in the cache, and is this program's to remove.
    pub using_cache: bool,
    /// The toolchain to build with, where not the default.
    pub toolchain_version: Option<String>,
    pub metadata: PackageMetadata,
    /// The text of the manifest of the package.
    pub manifest: String,
    /// The source of the program.
    pub script: String,
    pub build_kind: BuildKind,
    /// The name of the program that is built.
    pub bin_name: String,
    /// The name of the source file, without its extension.
    pub safe_name: String,
    /// The features that the package is built with.
    pub features: Vec<String>,
}

/// A call of a program.
#[derive(Debug, PartialEq, Eq)]
pub struct CommandLine {
    pub program: String,
    pub args: Vec<String>,
    /// The directory that the program is started in, where not the current
    /// one.
    pub current_dir: Option<String>,
    /// The program is told to print a backtrace when it panics.
    pub backtrace: bool,
}

/// What a `CommandLine` stands for.
pub struct CommandView {
    pub program: Seq<char>,
    pub args: Seq<Seq<char>>,
    pub current_dir: Option<Seq<char>>,
    pub backtrace: bool,
}

impl View for CommandLine {
    type V = CommandView;

    open spec fn view(&self) -> CommandView {
        CommandView {
            program: self.program@,
            args: strings_view(self.args@),
            current_dir: option_view(self.current_dir),
            backtrace: self.backtrace,
        }
    }
}

/// Whether a program that was built before can be run as it is.
#[derive(Debug, Clone, Copy, PartialEq, Eq, Structural)]
pub enum Freshness {
    /// The program is up to date.
    Fresh,
    /// The program has to be built.
    Rebuild,
}

/// How an input is brought to run.
#[derive(Debug, PartialEq, Eq)]
pub enum Plan {
    /// Run the program that was built before.
    Execute(CommandLine),
    /// Call the build tool with the first command and, if it succeeds, run
    /// the program with the second.
    BuildThenExecute(CommandLine, CommandLine),
    /// Hand over to the build tool, which builds and runs.
    Toolchain(CommandLine),
}

/// What a `Plan` stands for.
pub enum PlanView {
    Execute(CommandView),
    BuildThenExecute(CommandView, CommandView),
    Toolchain(CommandView),
}

impl View for Plan {
    type V = PlanView;

    open spec fn view(&self) -> PlanView {
        match self {
            Plan::Execute(c) => PlanView::Execute(c@),
            Plan::BuildThenExecute(b, c) => PlanView::BuildThenExecute(b@, c@),
            Plan::Toolchain(c) => PlanView::Toolchain(c@),
        }
    }
}

/// The build tool has failed; the field is the code that it ended with.
#[derive(Debug, Clone, Copy, PartialEq, Eq, Structural)]
pub struct ToolchainFailure(pub i32);

/// The directory that the package of an input with the identity `id` is
/// generated in, and whether it lies in the cache: the directory that the
/// user has chosen, which does not, or else the directory named `id` among
/// the generated packages, which does.
pub open spec fn package_dir(id: Seq<char>, chosen: Option<Seq<char>>, projects_cache: Seq<char>) -> (
    Seq<char>,
    bool,
) {
    match chosen {
        Some(dir) => (dir, false),
        None => (path_join(projects_cache, id), true),
    }
}

/// Where the package of an input with the identity `id` is generated, and
/// whether that directory lies in the cache. A directory that the user has
/// chosen is taken as it is.
pub fn resolve_package_dir(id: &str, chosen: &Option<String>, projects_cache: &str) -> (r: (
    String,
    bool,
))
    ensures
        (r.0@, r.1) == package_dir(id@, option_view(*chosen), projects_cache@),
{
    match chosen {
        Some(dir) => (owned(dir.as_str()), false),
        None => (join(projects_cache, id), true),
    }
}

/// Whether a build of the kind `kind` goes without optimization, when the
/// user has asked for `debug`: tests always do, benchmarks never.
pub open spec fn built_debug(kind: BuildKind, debug: bool) -> bool {
    match kind {
        BuildKind::Normal => debug,
        BuildKind::Test => true,
        BuildKind::Bench => false,
    }
}

/// The toolchain that a build of the kind `kind` is done with, when the
/// user has named `chosen`.
pub open spec fn toolchain_for(kind: BuildKind, chosen: Option<Seq<char>>) -> Option<Seq<char>> {
    match chosen {
        Some(v) => Some(v),
        None => match kind {
            BuildKind::Bench => Some(BENCH_TOOLCHAIN@),
            _ => None,
        },
    }
}

/// For the given input, decides where its package goes and how it is
/// built.
///
/// Fails where no manifest can be made for the input, with the reason.
pub fn decide_action_for(input: &Input, args: &Args, env: &Environment) -> (r: Result<
    InputAction,
    ManifestError,
>)
    ensures
        match r {
            Err(e) => split(*input, input.identity(), env.current_dir@) == Err::<
                (Seq<char>, Seq<char>),
                ManifestFault,
            >(e@),
            Ok(a) => {
                &&& split(*input, input.identity(), env.current_dir@) == Ok::<
                    (Seq<char>, Seq<char>),
                    ManifestFault,
                >((a.manifest@, a.script@))
                &&& (a.pkg_path@, a.using_cache) == package_dir(
                    input.identity(),
                    option_view(args.pkg_path),
                    env.projects_cache@,
                )
                &&& a.bin_name@ == bin_name_of(package_name_of(input.name()), input.identity())
                &&& a.safe_name@ == input.name()
                &&& a.build_kind == args.build_kind
                &&& a.metadata.debug == built_debug(args.build_kind, args.debug)
                &&& a.force_compile == (args.build_kind == BuildKind::Normal && args.force)
                &&& a.cargo_output == args.cargo_output
                &&& option_view(a.toolchain_version) == toolchain_for(
                    args.build_kind,
                    option_view(args.toolchain_version),
                )
                &&& strings_view(a.features@) == strings_view(args.features@)
            },
        },
{
    let input_id = input.compute_id();
    let (pkg_path, using_cache) = resolve_package_dir(
        input_id.as_str(),
        &args.pkg_path,
        env.projects_cache.as_str(),
    );
    let pkg_name = input.package_name();
    let with_bar = concat(pkg_name.as_str(), "_");
    let bin_name = concat(with_bar.as_str(), input_id.as_str());
    proof {
        reveal_strlit("_");
        assert("_"@ =~= seq!['_']);
    }
    let (mani_str, script_str) = match split_input(
        input,
        input_id.as_str(),
        env.current_dir.as_str(),
    ) {
        Ok(parts) => parts,
        Err(e) => {
            return Err(e);
        },
    };
    let (debug, force) = match args.build_kind {
        BuildKind::Normal => (args.debug, args.force),
        BuildKind::Test => (true, false),
        BuildKind::Bench => (false, false),
    };
    let toolchain_version = match &args.toolchain_version {
        Some(v) => Some(owned(v.as_str())),
        None => match args.build_kind {
            BuildKind::Bench => Some(owned(BENCH_TOOLCHAIN)),
            _ => None,
        },
    };
    Ok(
        InputAction {
            cargo_output: args.cargo_output,
            force_compile: force,
            pkg_path,
            using_cache,
            toolchain_version,
            metadata: PackageMetadata { debug },
            manifest: mani_str,
            script: script_str,
            build_kind: args.build_kind,
            bin_name,
            safe_name: owned(input.safe_name()),
            features: copy_strings(&args.features),
        },
    )
}

/// The arguments that name the features `fs`, the first `n` of them: each
/// one after an argument `--features`.
pub open spec fn feature_args(fs: Seq<Seq<char>>, n: int) -> Seq<Seq<char>>
    decreases n,
{
    if n <= 0 || n > fs.len() {
        Seq::empty()
    } else {
        feature_args(fs, n - 1).push("--features"@).push(fs[n - 1])
    }
}

/// `v`, where `b` holds, and nothing where it does not.
pub open spec fn when(b: bool, v: Seq<Seq<char>>) -> Seq<Seq<char>> {
    if b {
        v
    } else {
        Seq::empty()
    }
}

/// Appends a copy of `arg` to `args`.
fn push_arg(args: &mut Vec<String>, arg: &str)
    ensures
        strings_view(final(args)@) == strings_view(old(args)@).push(arg@),
{
    let s = owned(arg);
    proof {
        assert(strings_view(args@.push(s)) =~= strings_view(args@).push(s@));
    }
    args.push(s);
}

impl InputAction {
    /// Where the manifest of the package lies.
    pub fn manifest_path(&self) -> (r: String)
        ensures
            r@ == path_join(self.pkg_path@, MANIFEST_FILE@),
    {
        join(self.pkg_path.as_str(), MANIFEST_FILE)
    }

    /// Where the source of the program lies.
    pub fn script_path(&self) -> (r: String)
        ensures
            r@ == path_join(self.pkg_path@, self.safe_name@ + SOURCE_SUFFIX@),
    {
        let name = concat(self.safe_name.as_str(), SOURCE_SUFFIX);
        join(self.pkg_path.as_str(), name.as_str())
    }

    /// Decides which files of the package are written, given what the
    /// manifest and the source hold on disk; what a file holds is missing
    /// where the file is, or where it cannot be read.
    ///
    /// A file that holds its text already is left alone, so that the time of
    /// its last change stays what it is. Where a new build is forced, the
    /// source is written anyway, so that the build tool too takes the program
    /// for stale.
    pub fn gen_pkg_and_compile(&self, manifest_on_disk: Option<&str>, script_on_disk: Option<&str>) -> (r:
        (WriteAction, WriteAction))
        ensures
            r.0 == write_decision(
                match manifest_on_disk {
                    Some(text) => Some(text@),
                    None => None,
                },
                self.manifest@,
                false,
            ),
            r.1 == write_decision(
                match script_on_disk {
                    Some(text) => Some(text@),
                    None => None,
                },
                self.script@,
                self.force_compile,
            ),
    {
        (
            write_if_changed(manifest_on_disk, self.manifest.as_str(), false),
            write_if_changed(script_on_disk, self.script.as_str(), self.force_compile),
        )
    }

    /// The program is built with optimization: it is not built for
    /// debugging, and not for benchmarks, which bring their own.
    pub open spec fn release_mode(&self) -> bool {
        !self.metadata.debug && self.build_kind != BuildKind::Bench
    }

    /// Where the build tool puts the program.
    pub open spec fn binary_path(&self, env: Environment) -> Seq<char> {
        path_join(
            path_join(
                env.binary_cache@,
                if self.release_mode() {
                    "release"@
                } else {
                    "debug"@
                },
            ),
            self.bin_name@ + env.exe_suffix@,
        )
    }

    /// Whether the program is built with optimization.
    fn is_release(&self) -> (b: bool)
        ensures
            b == self.release_mode(),
    {
        !self.metadata.debug && !matches!(self.build_kind, BuildKind::Bench)
    }

    /// Where the build tool puts the program.
    pub fn built_binary_path(&self, env: &Environment) -> (r: String)
        ensures
            r@ == self.binary_path(*env),
    {
        let profile = join(
            env.binary_cache.as_str(),
            if self.is_release() {
                "release"
            } else {
                "debug"
            },
        );
        let name = concat(self.bin_name.as_str(), env.exe_suffix.as_str());
        join(profile.as_str(), name.as_str())
    }

    /// The call that runs the program with `script_args`. A backtrace is
    /// asked for unless the user has said whether one is wanted.
    pub open spec fn execution(&self, env: Environment, script_args: Seq<Seq<char>>) -> CommandView {
        CommandView {
            program: self.binary_path(env),
            args: script_args,
            current_dir: None,
            backtrace: !env.backtrace_chosen,
        }
    }

    /// The call that runs the program with the arguments `script_args`,
    /// handed on as they are.
    pub fn execute_command(&self, env: &Environment, script_args: &Vec<String>) -> (r: CommandLine)
        ensures
            r@ == self.execution(*env, strings_view(script_args@)),
    {
        CommandLine {
            program: self.built_binary_path(env),
            args: copy_strings(script_args),
            current_dir: None,
            backtrace: !env.backtrace_chosen,
        }
    }

    /// The program that is called to build, and what its arguments begin
    /// with: the build tool itself or, for a toolchain of the user's choice,
    /// the build tool with the toolchain before its command, or `rustup`
    /// when the program runs inside it.
    pub open spec fn build_tool(&self, env: Environment) -> (Seq<char>, Seq<Seq<char>>) {
        match self.toolchain_version {
            Some(v) => if env.inside_rustup {
                ("rustup"@, seq!["run"@, v@, "cargo"@])
            } else {
                ("cargo"@, seq!["+"@ + v@])
            },
            None => ("cargo"@, Seq::empty()),
        }
    }

    /// The call of the build tool: the toolchain, the command, `-q` for a
    /// plain build whose output is not wanted, the colour, the directory for
    /// what is built, `--release` for a build with optimization, and the
    /// features. The tool is started in the directory of the package.
    pub open spec fn build(&self, env: Environment) -> CommandView {
        CommandView {
            program: self.build_tool(env).0,
            args: self.build_tool(env).1.push(
                match self.build_kind {
                    BuildKind::Normal => "build"@,
                    BuildKind::Test => "test"@,
                    BuildKind::Bench => "bench"@,
                },
            ) + when(self.build_kind == BuildKind::Normal && !self.cargo_output, seq!["-q"@])
                + when(env.force_color, seq!["--color"@, "always"@]) + seq![
                "--target-dir"@,
                env.binary_cache@,
            ] + when(self.release_mode(), seq!["--release"@]) + feature_args(
                strings_view(self.features@),
                self.features@.len() as int,
            ),
            current_dir: Some(self.pkg_path@),
            backtrace: false,
        }
    }

    /// The call of the build tool that builds the package.
    pub fn build_command(&self, env: &Environment) -> (r: CommandLine)
        ensures
            r@ == self.build(*env),
    {
        let mut args: Vec<String> = Vec::new();
        proof {
            assert(strings_view(args@) =~= Seq::<Seq<char>>::empty());
        }
        let program = match &self.toolchain_version {
            Some(v) => {
                if env.inside_rustup {
                    push_arg(&mut args, "run");
                    push_arg(&mut args, v.as_str());
                    push_arg(&mut args, "cargo");
                    owned("rustup")
                } else {
                    let plus = concat("+", v.as_str());
                    push_arg(&mut args, plus.as_str());
                    owned("cargo")
                }
            },
            None => owned("cargo"),
        };
        proof {
            assert(strings_view(args@) =~= self.build_tool(*env).1);
        }
        push_arg(&mut args, self.build_kind.exec_command());
        if matches!(self.build_kind, BuildKind::Normal) && !self.cargo_output {
            push_arg(&mut args, "-q");
        }
        if env.force_color {
            push_arg(&mut args, "--color");
            push_arg(&mut args, "always");
        }
        push_arg(&mut args, "--target-dir");
        push_arg(&mut args, env.binary_cache.as_str());
        if self.is_release() {
            push_arg(&mut args, "--release");
        }
        let ghost before = strings_view(args@);
        let mut i: usize = 0;
        while i < self.features.len()
            invariant
                i <= self.features.len(),
                strings_view(args@) == before + feature_args(
                    strings_view(self.features@),
                    i as int,
                ),
            decreases self.features.len() - i,
        {
            proof {
                assert(strings_view(self.features@)[i as int] == self.features@[i as int]@);
            }
            push_arg(&mut args, "--features");
            push_arg(&mut args, self.features[i].as_str());
            i += 1;
            proof {
                assert(strings_view(args@) =~= before + feature_args(
                    strings_view(self.features@),
                    i as int,
                ));
            }
        }
        proof {
            assert(strings_view(args@) =~= self.build(*env).args);
        }
        CommandLine {
            program,
            args,
            current_dir: Some(owned(self.pkg_path.as_str())),
            backtrace: false,
        }
    }

    /// Whether the program that was built before is still up to date.
    ///
    /// `binary`, `script` and `manifest` are the times at which the program,
    /// the source and the manifest were last changed; a time is missing
    /// where the file is, or where it cannot be read. The program is fresh
    /// when it is there and no older than the source and the manifest, and
    /// nobody has asked for a new build; tests and benchmarks are always
    /// built anew.
    pub open spec fn fresh(
        &self,
        binary: Option<Timestamp>,
        script: Option<Timestamp>,
        manifest: Option<Timestamp>,
    ) -> bool {
        &&& self.build_kind == BuildKind::Normal
        &&& !self.force_compile
        &&& binary is Some
        &&& script is Some
        &&& manifest is Some
        &&& binary->Some_0.when() >= script->Some_0.when()
        &&& binary->Some_0.when() >= manifest->Some_0.when()
    }

    /// Decides whether the program has to be built.
    pub fn freshness(
        &self,
        binary: Option<Timestamp>,
        script: Option<Timestamp>,
        manifest: Option<Timestamp>,
    ) -> (r: Freshness)
        ensures
            r == if self.fresh(binary, script, manifest) {
                Freshness::Fresh
            } else {
                Freshness::Rebuild
            },
    {
        if !matches!(self.build_kind, BuildKind::Normal) || self.force_compile {
            return Freshness::Rebuild;
        }
        match (binary, script, manifest) {
            (Some(b), Some(s), Some(m)) => {
                if b.is_at_or_after(&s) && b.is_at_or_after(&m) {
                    Freshness::Fresh
                } else {
                    Freshness::Rebuild
                }
            },
            _ => Freshness::Rebuild,
        }
    }

    /// How the input is brought to run, given the times at which the
    /// program, the source and the manifest were last changed.
    pub open spec fn plan(
        &self,
        env: Environment,
        script_args: Seq<Seq<char>>,
        binary: Option<Timestamp>,
        script: Option<Timestamp>,
        manifest: Option<Timestamp>,
    ) -> PlanView {
        if self.build_kind != BuildKind::Normal {
            PlanView::Toolchain(self.build(env))
        } else if self.fresh(binary, script, manifest) {
            PlanView::Execute(self.execution(env, script_args))
        } else {
            PlanView::BuildThenExecute(self.build(env), self.execution(env, script_args))
        }
    }

    /// Decides how the input is brought to run.
    ///
    /// A program that is fresh is run as it is, and the build tool is not
    /// called. Any other is built first. Tests and benchmarks are handed
    /// over to the build tool.
    pub fn cargo(
        &self,
        env: &Environment,
        script_args: &Vec<String>,
        binary: Option<Timestamp>,
        script: Option<Timestamp>,
        manifest: Option<Timestamp>,
    ) -> (r: Plan)
        ensures
            r@ == self.plan(*env, strings_view(script_args@), binary, script, manifest),
    {
        if !matches!(self.build_kind, BuildKind::Normal) {
            return Plan::Toolchain(self.build_command(env));
        }
        match self.freshness(binary, script, manifest) {
            Freshness::Fresh => Plan::Execute(self.execute_command(env, script_args)),
            Freshness::Rebuild => Plan::BuildThenExecute(
                self.build_command(env),
                self.execute_command(env, script_args),
            ),
        }
    }
}

/// What follows from the way the build tool ended: the program can be run
/// when the tool ended with the code 0, and else the tool has failed, with
/// its code, or with 1 where it ended without one.
pub fn after_build(exit_code: Option<i32>) -> (r: Result<(), ToolchainFailure>)
    ensures
        r == match exit_code {
            Some(code) => if code == 0 {
                Ok::<(), ToolchainFailure>(())
            } else {
                Err::<(), ToolchainFailure>(ToolchainFailure(code))
            },
            None => Err::<(), ToolchainFailure>(ToolchainFailure(1)),
        },
{
    match exit_code {
        Some(code) => if code == 0 {
            Ok(())
        } else {
            Err(ToolchainFailure(code))
        },
        None => Err(ToolchainFailure(1)),
    }
}

/// A program older than its source is built anew, and one that is newer
/// than its source and its manifest is run without the build tool.
pub proof fn lemma_freshness(
    a: InputAction,
    binary: Timestamp,
    script: Timestamp,
    manifest: Timestamp,
)
    requires
        a.build_kind == BuildKind::Normal,
        !a.force_compile,
    ensures
        binary.when() < script.when() ==> !a.fresh(Some(binary), Some(script), Some(manifest)),
        binary.when() > script.when() && binary.when() > manifest.when() ==> a.fresh(
            Some(binary),
            Some(script),
            Some(manifest),
        ),
{
}

} // verus!

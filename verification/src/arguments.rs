//! What the user has asked for on the command line, once it has been told
//! apart into options and checked.

use crate::text::{concat, option_view, owned, strings_view};
use vstd::prelude::*;

verus! {

/// What is to be done with the package once it has been generated.
#[derive(Debug, Clone, Copy, PartialEq, Eq, Structural)]
pub enum BuildKind {
    /// Build the program and run it.
    Normal,
    /// Build the tests and run them.
    Test,
    /// Build the benchmarks and run them.
    Bench,
}

impl BuildKind {
    /// The command of the build tool that this kind of build is done by.
    pub fn exec_command(&self) -> (r: &'static str)
        ensures
            r@ == match self {
                BuildKind::Normal => "build"@,
                BuildKind::Test => "test"@,
                BuildKind::Bench => "bench"@,
            },
    {
        match self {
            BuildKind::Normal => "build",
            BuildKind::Test => "test",
            BuildKind::Bench => "bench",
        }
    }

    /// The kind of build that the flags for tests and for benchmarks ask
    /// for. Both at once ask for none.
    pub open spec fn of_flags(test: bool, bench: bool) -> Option<BuildKind> {
        match (test, bench) {
            (false, false) => Some(BuildKind::Normal),
            (true, false) => Some(BuildKind::Test),
            (false, true) => Some(BuildKind::Bench),
            (true, true) => None::<BuildKind>,
        }
    }

    /// The kind of build that the flags for tests and for benchmarks ask
    /// for. Both at once ask for none.
    pub fn from_flags(test: bool, bench: bool) -> (r: Option<BuildKind>)
        ensures
            r == BuildKind::of_flags(test, bench),
    {
        match (test, bench) {
            (false, false) => Some(BuildKind::Normal),
            (true, false) => Some(BuildKind::Test),
            (false, true) => Some(BuildKind::Bench),
            (true, true) => None,
        }
    }
}

/// A feature that is not yet stable, and has to be asked for by name.
#[derive(Debug, Clone, Copy, PartialEq, Eq, Structural)]
pub enum UnstableFlags {
    Test,
    Bench,
    ToolchainVersion,
    Expr,
}

/// What was found on the command line, option by option.
#[derive(Debug)]
pub struct Matches {
    /// The script, and after it the arguments that are meant for it.
    pub script_and_args: Vec<String>,
    pub features: Vec<String>,
    pub expr: bool,
    pub pkg_path: Option<String>,
    pub cargo_output: bool,
    pub clear_cache: bool,
    pub release: bool,
    pub force: bool,
    pub test: bool,
    pub bench: bool,
    pub toolchain_version: Option<String>,
    pub unstable_flags: Vec<UnstableFlags>,
}

/// What the user has asked for.
#[derive(Debug)]
pub struct Args {
    /// The script file, or the expression.
    pub script: Option<String>,
    /// The arguments that are meant for the script.
    pub script_args: Vec<String>,
    /// The features that the package is built with.
    pub features: Vec<String>,
    /// The script is an expression.
    pub expr: bool,
    /// Where the package is to be generated, where not in the cache.
    pub pkg_path: Option<String>,
    /// Show what the build tool prints.
    pub cargo_output: bool,
    /// Clear the cache first.
    pub clear_cache: bool,
    /// Build without optimization.
    pub debug: bool,
    /// Build even if nothing seems to have changed.
    pub force: bool,
    pub build_kind: BuildKind,
    /// The toolchain to build with, where not the default.
    pub toolchain_version: Option<String>,
    pub unstable_flags: Vec<UnstableFlags>,
}

/// Why the command line cannot be followed.
#[derive(Debug, PartialEq, Eq)]
pub enum ArgsError {
    /// Tests and benchmarks were asked for at once.
    TestAndBench,
    /// Tests were asked for, but not the unstable feature that they are.
    TestUnstable,
    /// Benchmarks were asked for, but not the unstable feature that they are.
    BenchUnstable,
    /// A toolchain was named, but not the unstable feature that this is.
    ToolchainVersionUnstable(String),
    /// An expression was given, but not the unstable feature that this is.
    ExprUnstable,
}

/// What an `ArgsError` stands for.
pub enum ArgsFault {
    TestAndBench,
    TestUnstable,
    BenchUnstable,
    ToolchainVersionUnstable(Seq<char>),
    ExprUnstable,
}

impl View for ArgsError {
    type V = ArgsFault;

    open spec fn view(&self) -> ArgsFault {
        match self {
            ArgsError::TestAndBench => ArgsFault::TestAndBench,
            ArgsError::TestUnstable => ArgsFault::TestUnstable,
            ArgsError::BenchUnstable => ArgsFault::BenchUnstable,
            ArgsError::ToolchainVersionUnstable(v) => ArgsFault::ToolchainVersionUnstable(v@),
            ArgsError::ExprUnstable => ArgsFault::ExprUnstable,
        }
    }
}

impl ArgsFault {
    /// The fault in words.
    pub open spec fn message(self) -> Seq<char> {
        match self {
            ArgsFault::TestAndBench => "got both test and bench"@,
            ArgsFault::TestUnstable =>
                "`--test` is unstable and requires `-Z test` (epage/cargo-script-mvs#29)."@,
            ArgsFault::BenchUnstable =>
                "`--bench` is unstable and requires `-Z bench` (epage/cargo-script-mvs#68)."@,
            ArgsFault::ToolchainVersionUnstable(version) => "`--toolchain-version="@ + version
                + "` is unstable and requires `-Z toolchain-version` (epage/cargo-script-mvs#36)."@,
            ArgsFault::ExprUnstable =>
                "`--expr` is unstable and requires `-Z expr` (epage/cargo-script-mvs#72)."@,
        }
    }
}

impl ArgsError {
    /// The error in words.
    pub fn message(&self) -> (r: String)
        ensures
            r@ == self@.message(),
    {
        match self {
            ArgsError::TestAndBench => owned("got both test and bench"),
            ArgsError::TestUnstable => owned(
                "`--test` is unstable and requires `-Z test` (epage/cargo-script-mvs#29).",
            ),
            ArgsError::BenchUnstable => owned(
                "`--bench` is unstable and requires `-Z bench` (epage/cargo-script-mvs#68).",
            ),
            ArgsError::ToolchainVersionUnstable(version) => {
                let begun = concat("`--toolchain-version=", version.as_str());
                concat(
                    begun.as_str(),
                    "` is unstable and requires `-Z toolchain-version` (epage/cargo-script-mvs#36).",
                )
            },
            ArgsError::ExprUnstable => owned(
                "`--expr` is unstable and requires `-Z expr` (epage/cargo-script-mvs#72).",
            ),
        }
    }
}

/// Whether `flags` holds `flag`.
pub fn has_flag(flags: &Vec<UnstableFlags>, flag: UnstableFlags) -> (b: bool)
    ensures
        b == flags@.contains(flag),
{
    let mut i: usize = 0;
    while i < flags.len()
        invariant
            i <= flags.len(),
            forall|j: int| 0 <= j < i ==> flags@[j] != flag,
        decreases flags.len() - i,
    {
        if flags[i] == flag {
            return true;
        }
        i += 1;
    }
    false
}

/// What stands in the way of following `m`, if anything: the first of
/// these, in this order. Tests and benchmarks are asked for at once; tests,
/// benchmarks, a toolchain or an expression are asked for, and the unstable
/// feature of that name is not.
pub open spec fn fault_of(m: Matches) -> Option<ArgsFault> {
    if m.test && m.bench {
        Some(ArgsFault::TestAndBench)
    } else if m.test && !m.unstable_flags@.contains(UnstableFlags::Test) {
        Some(ArgsFault::TestUnstable)
    } else if m.bench && !m.unstable_flags@.contains(UnstableFlags::Bench) {
        Some(ArgsFault::BenchUnstable)
    } else if m.toolchain_version is Some && !m.unstable_flags@.contains(
        UnstableFlags::ToolchainVersion,
    ) {
        Some(ArgsFault::ToolchainVersionUnstable(m.toolchain_version->Some_0@))
    } else if m.expr && !m.unstable_flags@.contains(UnstableFlags::Expr) {
        Some(ArgsFault::ExprUnstable)
    } else {
        None
    }
}

impl Args {
    /// Checks what was found on the command line, and tells the script from
    /// its arguments.
    ///
    /// The script is the first of `script_and_args`; what follows it is
    /// meant for the script. The build is one without optimization unless a
    /// release was asked for.
    pub fn parse(m: Matches) -> (r: Result<Args, ArgsError>)
        ensures
            match r {
                Err(e) => fault_of(m) == Some(e@),
                Ok(a) => {
                    &&& fault_of(m) is None
                    &&& option_view(a.script) == if m.script_and_args@.len() > 0 {
                        Some(m.script_and_args@[0]@)
                    } else {
                        None
                    }
                    &&& strings_view(a.script_args@) == if m.script_and_args@.len() > 0 {
                        strings_view(m.script_and_args@).skip(1)
                    } else {
                        Seq::empty()
                    }
                    &&& a.features == m.features
                    &&& a.expr == m.expr
                    &&& a.pkg_path == m.pkg_path
                    &&& a.cargo_output == m.cargo_output
                    &&& a.clear_cache == m.clear_cache
                    &&& a.debug == !m.release
                    &&& a.force == m.force
                    &&& BuildKind::of_flags(m.test, m.bench) == Some(a.build_kind)
                    &&& a.toolchain_version == m.toolchain_version
                    &&& a.unstable_flags == m.unstable_flags
                },
            },
    {
        let build_kind = match BuildKind::from_flags(m.test, m.bench) {
            Some(kind) => kind,
            None => {
                return Err(ArgsError::TestAndBench);
            },
        };
        if m.test && !has_flag(&m.unstable_flags, UnstableFlags::Test) {
            return Err(ArgsError::TestUnstable);
        }
        if m.bench && !has_flag(&m.unstable_flags, UnstableFlags::Bench) {
            return Err(ArgsError::BenchUnstable);
        }
        if m.toolchain_version.is_some() && !has_flag(
            &m.unstable_flags,
            UnstableFlags::ToolchainVersion,
        ) {
            match m.toolchain_version {
                Some(version) => {
                    return Err(ArgsError::ToolchainVersionUnstable(version));
                },
                None => {},
            }
        }
        if m.expr && !has_flag(&m.unstable_flags, UnstableFlags::Expr) {
            return Err(ArgsError::ExprUnstable);
        }
        let mut rest = m.script_and_args;
        let script = if rest.len() > 0 {
            let first = rest.remove(0);
            proof {
                assert(rest@ =~= m.script_and_args@.skip(1));
                assert(strings_view(rest@) =~= strings_view(m.script_and_args@).skip(1));
            }
            Some(first)
        } else {
            proof {
                assert(strings_view(rest@) =~= Seq::<Seq<char>>::empty());
            }
            None
        };
        Ok(
            Args {
                script,
                script_args: rest,
                features: m.features,
                expr: m.expr,
                pkg_path: m.pkg_path,
                cargo_output: m.cargo_output,
                clear_cache: m.clear_cache,
                debug: !m.release,
                force: m.force,
                build_kind,
                toolchain_version: m.toolchain_version,
                unstable_flags: m.unstable_flags,
            },
        )
    }
}

} // verus!

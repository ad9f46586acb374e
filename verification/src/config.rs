//! Settings of the evaluating front end.

use crate::paths::{join, path_join};
use vstd::prelude::*;

verus! {

/// A feature of the evaluating front end that is not yet stable, and has to
/// be asked for by name.
#[derive(Debug, Clone, Copy, PartialEq, Eq, Structural)]
pub enum UnstableFlags {
    Eval,
    Loop,
    Polyfill,
}

/// The directory that the build tool puts what it builds in when the user
/// names none: `shell/target` under `cargo_home`.
pub fn default_target_dir(cargo_home: &str) -> (dir: String)
    ensures
        dir@ == path_join(path_join(cargo_home@, "shell"@), "target"@),
{
    let shell = join(cargo_home, "shell");
    join(shell.as_str(), "target")
}

} // verus!

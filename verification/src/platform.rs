//! What differs from one platform to the other.

use vstd::prelude::*;

verus! {

/// How a platform takes colour.
#[derive(Debug, Clone, Copy, PartialEq, Eq, Structural)]
pub enum Platform {
    /// Colour is written into the text itself.
    Unix,
    /// Colour goes beside the text, and cannot be forced.
    Windows,
}

/// Whether the build tool is made to write in colour: where colour is
/// written into the text, and the text goes to a terminal.
pub fn force_cargo_color(platform: Platform, stderr_is_terminal: bool) -> (force: bool)
    ensures
        force == (platform == Platform::Unix && stderr_is_terminal),
{
    match platform {
        Platform::Unix => stderr_is_terminal,
        Platform::Windows => false,
    }
}

} // verus!

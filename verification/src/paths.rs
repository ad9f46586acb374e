//! Paths, held as strings, and the directories that the cache is laid out
//! in.
//!
//! Paths are taken apart and put together by `std::path`, which goes by the
//! rules of the platform that the library is built for. What it gives is a
//! function of the strings it is given; the names below stand for it.

use crate::text::owned;
use vstd::prelude::*;

verus! {

/// Name of the directory, under the platform's cache or data directory,
/// that belongs to this program.
pub const PACKAGE_DIR: &'static str = "rust-script";

/// What `Path::join` makes of the path `base` and the path `name`.
pub uninterp spec fn path_join(base: Seq<char>, name: Seq<char>) -> Seq<char>;

/// What `Path::parent` gives for `path`.
pub uninterp spec fn path_parent(path: Seq<char>) -> Option<Seq<char>>;

/// What `Path::is_relative` says of `path`.
pub uninterp spec fn path_is_relative(path: Seq<char>) -> bool;

/// What `Path::file_stem` gives for `path`.
pub uninterp spec fn path_file_stem(path: Seq<char>) -> Option<Seq<char>>;

/// Whether `Path::extension` finds an extension in `path`.
pub uninterp spec fn path_has_extension(path: Seq<char>) -> bool;

/// What `Path::with_extension` makes of `path` and `extension`.
pub uninterp spec fn path_with_extension(path: Seq<char>, extension: Seq<char>) -> Seq<char>;

/// `Path::join`: `name` added to `base`. Both are text, and so is the result.
#[verifier::external_body]
pub(crate) fn join(base: &str, name: &str) -> (joined: String)
    ensures
        joined@ == path_join(base@, name@),
{
    std::path::Path::new(base).join(name).to_string_lossy().into_owned()
}

/// `Path::parent`: `path` without its last component, if it has one.
#[verifier::external_body]
pub(crate) fn parent(path: &str) -> (dir: Option<String>)
    ensures
        match dir {
            Some(d) => path_parent(path@) == Some(d@),
            None => path_parent(path@) is None,
        },
{
    std::path::Path::new(path).parent().map(|p| p.to_string_lossy().into_owned())
}

/// `Path::is_relative`.
#[verifier::external_body]
pub(crate) fn is_relative(path: &str) -> (b: bool)
    ensures
        b == path_is_relative(path@),
{
    std::path::Path::new(path).is_relative()
}

/// `Path::file_stem`: the name of the file without its extension.
#[verifier::external_body]
pub(crate) fn file_stem(path: &str) -> (stem: Option<String>)
    ensures
        match stem {
            Some(s) => path_file_stem(path@) == Some(s@),
            None => path_file_stem(path@) is None,
        },
{
    std::path::Path::new(path).file_stem().map(|s| s.to_string_lossy().into_owned())
}

/// `Path::extension`, asked only whether there is one.
#[verifier::external_body]
pub(crate) fn has_extension(path: &str) -> (b: bool)
    ensures
        b == path_has_extension(path@),
{
    std::path::Path::new(path).extension().is_some()
}

/// `s` holds no character that parts the components of a path on any
/// platform.
pub open spec fn has_no_separator(s: Seq<char>) -> bool {
    forall|i: int| 0 <= i < s.len() ==> s[i] != '/' && s[i] != '\\'
}

/// `Path::with_extension`: `path` with `extension` set as its extension. It
/// panics on an extension that holds a path separator, so none is taken.
#[verifier::external_body]
pub(crate) fn with_extension(path: &str, extension: &str) -> (changed: String)
    requires
        has_no_separator(extension@),
    ensures
        changed@ == path_with_extension(path@, extension@),
{
    std::path::Path::new(path).with_extension(extension).to_string_lossy().into_owned()
}

/// Why a directory could not be named.
#[derive(Debug, Clone, Copy, PartialEq, Eq)]
pub enum DirError {
    /// The platform names no directory of the kind asked for.
    NoDirectory,
}

impl DirError {
    /// The error in words.
    pub fn message(&self) -> (r: String)
        ensures
            r@ == "Cannot get cache directory"@,
    {
        owned("Cannot get cache directory")
    }
}

/// The directory that holds the cache.
///
/// `chosen` is the directory that the user has set, if any, and is taken as
/// it is. Without it the cache lies in this program's own directory under
/// `platform_cache`, the platform's directory for caches; where the platform
/// names none, there is no cache directory.
pub fn cache_dir(chosen: Option<String>, platform_cache: Option<String>) -> (r: Result<
    String,
    DirError,
>)
    ensures
        match (chosen, platform_cache) {
            (Some(dir), _) => r == Ok::<String, DirError>(dir),
            (None, Some(dir)) => r is Ok && r->Ok_0@ == path_join(dir@, PACKAGE_DIR@),
            (None, None) => r == Err::<String, DirError>(DirError::NoDirectory),
        },
{
    match chosen {
        Some(dir) => Ok(dir),
        None => match platform_cache {
            Some(dir) => Ok(join(dir.as_str(), PACKAGE_DIR)),
            None => Err(DirError::NoDirectory),
        },
    }
}

/// The directory, under the cache directory `cache`, that holds the
/// generated packages, one directory each.
pub fn generated_projects_cache_path(cache: &str) -> (dir: String)
    ensures
        dir@ == path_join(cache@, "projects"@),
{
    join(cache, "projects")
}

/// The directory, under the cache directory `cache`, that the build tool
/// puts what it builds in.
pub fn binary_cache_path(cache: &str) -> (dir: String)
    ensures
        dir@ == path_join(cache@, "binaries"@),
{
    join(cache, "binaries")
}

/// The directory that templates are read from.
///
/// In a debug build `chosen`, the directory that the user has set, is taken
/// as it is. Otherwise the templates lie in `templates` in this program's
/// own directory under `platform_data`, the platform's directory for local
/// data; where the platform names none, there is no such directory.
pub fn templates_dir(debug: bool, chosen: Option<String>, platform_data: Option<String>) -> (r:
    Result<String, DirError>)
    ensures
        match (chosen, platform_data) {
            (Some(dir), _) if debug => r == Ok::<String, DirError>(dir),
            (_, Some(dir)) => r is Ok && r->Ok_0@ == path_join(
                path_join(dir@, PACKAGE_DIR@),
                "templates"@,
            ),
            (_, None) => r == Err::<String, DirError>(DirError::NoDirectory),
        },
{
    if debug {
        if let Some(dir) = chosen {
            return Ok(dir);
        }
    }
    match platform_data {
        Some(dir) => {
            let own = join(dir.as_str(), PACKAGE_DIR);
            Ok(join(own.as_str(), "templates"))
        },
        None => Err(DirError::NoDirectory),
    }
}

} // verus!

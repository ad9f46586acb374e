//! What the user asks to run: a script file or a literal expression.

use crate::hasher::{content_token, identity_token, is_hex_token, ID_DIGEST_LEN_MAX};
use crate::paths::{
    file_stem, has_extension, join, parent, path_file_stem, path_has_extension, path_join,
    path_parent, path_with_extension, with_extension,
};
use crate::text::{from_chars, owned, strings_view, to_chars};
use vstd::prelude::*;
use vstd::utf8::encode_utf8;

verus! {

/// The name that an expression goes by.
pub const EXPR_NAME: &'static str = "expr";

/// The name of a script file whose path has no file stem.
pub const UNKNOWN_NAME: &'static str = "unknown";

/// An input source for a script.
#[derive(Debug, PartialEq, Eq)]
pub enum Input {
    /// The input is a script file: its name, its absolute path, its content.
    File(String, String, String),
    /// The input is an expression: its text.
    Expr(String),
}

/// `c` is an ASCII digit.
pub open spec fn is_digit(c: char) -> bool {
    '0' <= c && c <= '9'
}

/// `c` can stand in the name of a package as it is: a lower-case ASCII
/// letter, an ASCII digit, `_` or `-`.
pub open spec fn is_package_char(c: char) -> bool {
    is_digit(c) || ('a' <= c && c <= 'z') || c == '_' || c == '-'
}

/// What stands for `c` in the name of a package: `c` itself where it can
/// stand there, its lower-case form for an ASCII capital, and `_` for
/// anything else.
pub open spec fn sanitized(c: char) -> char {
    if is_package_char(c) {
        c
    } else if 'A' <= c && c <= 'Z' {
        ((c as u8) + 32) as char
    } else {
        '_'
    }
}

/// The name of the package for an input called `name`: every character
/// sanitized, and `_` put in front where the name begins with a digit.
pub open spec fn package_name_of(name: Seq<char>) -> Seq<char> {
    let body = name.map_values(|c: char| sanitized(c));
    if name.len() > 0 && is_digit(name[0]) {
        seq!['_'] + body
    } else {
        body
    }
}

/// `id` can be the name of a package: it consists of lower-case ASCII
/// letters, ASCII digits, `_` and `-`, and does not begin with a digit.
pub open spec fn is_package_name(id: Seq<char>) -> bool {
    &&& forall|i: int| 0 <= i < id.len() ==> is_package_char(#[trigger] id[i])
    &&& id.len() > 0 ==> !is_digit(id[0])
}

/// What stands for `c` in the name of a package.
fn sanitize(c: char) -> (r: char)
    ensures
        r == sanitized(c),
        is_package_char(r),
{
    if ('0' <= c && c <= '9') || ('a' <= c && c <= 'z') || c == '_' || c == '-' {
        c
    } else if 'A' <= c && c <= 'Z' {
        ((c as u8) + 32) as char
    } else {
        '_'
    }
}

/// Makes the name of a package out of `name`.
///
/// The result depends on `name` alone and can always be the name of a
/// package. Different names can give the same result.
pub fn package_identifier(name: &str) -> (id: String)
    ensures
        id@ == package_name_of(name@),
        is_package_name(id@),
{
    let v = to_chars(name);
    let mut out: Vec<char> = Vec::new();
    if v.len() > 0 && '0' <= v[0] && v[0] <= '9' {
        out.push('_');
    }
    let ghost lead = out@;
    let mut i: usize = 0;
    while i < v.len()
        invariant
            i <= v.len(),
            v@ == name@,
            lead == if name@.len() > 0 && is_digit(name@[0]) {
                seq!['_']
            } else {
                Seq::<char>::empty()
            },
            out@ == lead + name@.take(i as int).map_values(|c: char| sanitized(c)),
            forall|j: int| 0 <= j < out@.len() ==> is_package_char(#[trigger] out@[j]),
            out@.len() > 0 ==> !is_digit(out@[0]),
        decreases v.len() - i,
    {
        let c = sanitize(v[i]);
        proof {
            assert(name@.take(i + 1).map_values(|c: char| sanitized(c)) =~= name@.take(
                i as int,
            ).map_values(|c: char| sanitized(c)).push(c));
            assert(lead + name@.take(i + 1).map_values(|c: char| sanitized(c)) =~= (lead + name@.take(
                i as int,
            ).map_values(|c: char| sanitized(c))).push(c));
            if out@.len() == 0 {
                assert(i == 0);
                assert(!is_digit(c));
            }
        }
        out.push(c);
        i += 1;
    }
    proof {
        assert(name@.take(v@.len() as int) =~= name@);
    }
    from_chars(&out)
}

/// The paths under which a script named `path` is looked for, in order:
/// the path itself and, where it has no extension, the path with the
/// extension `ers` and with the extension `rs`.
pub open spec fn candidates(path: Seq<char>) -> Seq<Seq<char>> {
    if path_has_extension(path) {
        seq![path]
    } else {
        seq![path, path_with_extension(path, "ers"@), path_with_extension(path, "rs"@)]
    }
}

/// The paths under which a script named `path` is looked for, in the order
/// in which they are tried. The script is the first of them that can be
/// opened.
pub fn script_candidates(path: &str) -> (r: Vec<String>)
    ensures
        strings_view(r@) == candidates(path@),
{
    let mut out: Vec<String> = Vec::new();
    out.push(owned(path));
    if !has_extension(path) {
        proof {
            reveal_strlit("ers");
            reveal_strlit("rs");
        }
        out.push(with_extension(path, "ers"));
        out.push(with_extension(path, "rs"));
        proof {
            assert(strings_view(out@) =~= candidates(path@));
        }
    } else {
        proof {
            assert(strings_view(out@) =~= candidates(path@));
        }
    }
    out
}

/// The index of the first of the paths `tried`, from `from` on, that could
/// be opened.
pub open spec fn first_opened(tried: Seq<(String, bool)>, from: int) -> Option<int>
    decreases tried.len() - from,
{
    if from < 0 || from >= tried.len() {
        None
    } else if tried[from].1 {
        Some(from)
    } else {
        first_opened(tried, from + 1)
    }
}

/// Picks the script among the paths under which it was looked for: `tried`
/// holds those paths in their order, each with whether it could be opened.
/// The script is the first that could; where none could, there is no
/// script.
pub fn find_script(tried: &Vec<(String, bool)>) -> (r: Option<String>)
    ensures
        match r {
            Some(path) => first_opened(tried@, 0) is Some && path@ == tried@[first_opened(
                tried@,
                0,
            )->Some_0].0@,
            None => first_opened(tried@, 0) is None,
        },
{
    let mut i: usize = 0;
    while i < tried.len()
        invariant
            i <= tried.len(),
            first_opened(tried@, 0) == first_opened(tried@, i as int),
        decreases tried.len() - i,
    {
        if tried[i].1 {
            return Some(owned(tried[i].0.as_str()));
        }
        i += 1;
    }
    None
}

impl Input {
    /// The input for the script that was found at `path`, a path that may be
    /// relative to the directory `current_dir`, and that holds `content`.
    ///
    /// The script is named by the stem of its file name.
    pub fn from_file(path: &str, current_dir: &str, content: String) -> (r: Input)
        ensures
            r matches Input::File(name, absolute, text) && text == content && absolute@
                == path_join(current_dir@, path@) && name@ == (match path_file_stem(path@) {
                Some(stem) => stem,
                None => UNKNOWN_NAME@,
            }),
    {
        let name = match file_stem(path) {
            Some(stem) => stem,
            None => owned(UNKNOWN_NAME),
        };
        Input::File(name, join(current_dir, path), content)
    }

    /// The path to the script, if it has one.
    pub fn path(&self) -> (r: Option<&str>)
        ensures
            match self {
                Input::File(_, path, _) => r is Some && r->Some_0@ == path@,
                Input::Expr(_) => r is None,
            },
    {
        match self {
            Input::File(_, path, _) => Some(path.as_str()),
            Input::Expr(_) => None,
        }
    }

    /// The name that the input goes by.
    pub open spec fn name(&self) -> Seq<char> {
        match self {
            Input::File(name, _, _) => name@,
            Input::Expr(_) => EXPR_NAME@,
        }
    }

    /// The text of the script.
    pub open spec fn content(&self) -> Seq<char> {
        match self {
            Input::File(_, _, content) => content@,
            Input::Expr(content) => content@,
        }
    }

    /// The bytes by which the input is told from others: those of the path
    /// of a file, those of the text of an expression.
    pub open spec fn identity_bytes(&self) -> Seq<u8> {
        match self {
            Input::File(_, path, _) => encode_utf8(path@),
            Input::Expr(content) => encode_utf8(content@),
        }
    }

    /// The token that identifies the input.
    pub open spec fn identity(&self) -> Seq<char> {
        identity_token(self.identity_bytes())
    }

    /// The name that the input goes by: the name of a file, `expr` for an
    /// expression. It is meant to be safe as the name of a file.
    pub fn safe_name(&self) -> (r: &str)
        ensures
            r@ == self.name(),
    {
        match self {
            Input::File(name, _, _) => name.as_str(),
            Input::Expr(_) => EXPR_NAME,
        }
    }

    /// The name of the package for the input.
    pub fn package_name(&self) -> (r: String)
        ensures
            r@ == package_name_of(self.name()),
            is_package_name(r@),
    {
        package_identifier(self.safe_name())
    }

    /// The directory that relative paths in the input are meant from: the
    /// directory of a file, `current_dir` for an expression. A file whose
    /// path has no parent has no such directory.
    pub fn base_path(&self, current_dir: &str) -> (r: Option<String>)
        ensures
            match self {
                Input::File(_, path, _) => match r {
                    Some(dir) => path_parent(path@) == Some(dir@),
                    None => path_parent(path@) is None,
                },
                Input::Expr(_) => r is Some && r->Some_0@ == current_dir@,
            },
    {
        match self {
            Input::File(_, path, _) => parent(path.as_str()),
            Input::Expr(_) => Some(owned(current_dir)),
        }
    }

    /// The token that identifies the input, and names the directory that its
    /// package is generated in.
    ///
    /// It is cut from a digest of the bytes that tell the input from others,
    /// depends on nothing else, and has `ID_DIGEST_LEN_MAX` hexadecimal
    /// digits.
    pub fn compute_id(&self) -> (id: String)
        ensures
            id@ == self.identity(),
            is_hex_token(id@, ID_DIGEST_LEN_MAX as nat),
    {
        match self {
            Input::File(_, path, _) => content_token(path.as_str().as_bytes()),
            Input::Expr(content) => content_token(content.as_str().as_bytes()),
        }
    }
}

/// Two inputs that agree in the bytes by which inputs are told apart have
/// the same identity, and two inputs of the same name the same package name.
pub proof fn lemma_identity_is_stable(a: Input, b: Input)
    ensures
        a.identity_bytes() == b.identity_bytes() ==> a.identity() == b.identity(),
        a.name() == b.name() ==> package_name_of(a.name()) == package_name_of(b.name()),
{
}

} // verus!

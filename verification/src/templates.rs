//! Source templates and the expansion of their placeholders.
//!
//! A placeholder is written `#{name}`, where `name` begins with an ASCII
//! letter or `_` and goes on with ASCII letters, digits and `_`.

use crate::text::{concat, copy_range, from_chars, owned, push_str, starts_with_at, str_eq, to_chars};
use vstd::pervasive::unreached;
use vstd::prelude::*;

verus! {

/// Name of the placeholder that stands for the body of the script.
pub const SCRIPT_BODY_SUB: &'static str = "script";

/// The template used for script file inputs.
pub const FILE_TEMPLATE: &'static str = "#{script}";

/// The template used for expression inputs.
pub const EXPR_TEMPLATE: &'static str = r#"
use std::any::{Any, TypeId};

fn main() {
    let exit_code = match try_main() {
        Ok(()) => None,
        Err(e) => {
            use std::io::{self, Write};
            let _ = writeln!(io::stderr(), "Error: {}", e);
            Some(1)
        },
    };
    if let Some(exit_code) = exit_code {
        std::process::exit(exit_code);
    }
}

fn try_main() -> Result<(), Box<dyn std::error::Error>> {
    fn _rust_script_is_empty_tuple<T: ?Sized + Any>(_s: &T) -> bool {
        TypeId::of::<()>() == TypeId::of::<T>()
    }
    match {#{script}} {
        __rust_script_expr if !_rust_script_is_empty_tuple(&__rust_script_expr) => println!("{:?}", __rust_script_expr),
        _ => {}
    }
    Ok(())
}
"#;

/// Why a template could not be had or expanded.
#[derive(Debug, PartialEq, Eq)]
pub enum TemplateError {
    /// The template names a placeholder for which no text was given.
    UnknownSubstitution(String),
    /// No template of that name is built in.
    NoSuchTemplate(String),
}

/// What a `TemplateError` stands for.
pub enum TemplateFault {
    UnknownSubstitution(Seq<char>),
    NoSuchTemplate(Seq<char>),
}

impl View for TemplateError {
    type V = TemplateFault;

    open spec fn view(&self) -> TemplateFault {
        match self {
            TemplateError::UnknownSubstitution(name) => TemplateFault::UnknownSubstitution(name@),
            TemplateError::NoSuchTemplate(name) => TemplateFault::NoSuchTemplate(name@),
        }
    }
}

impl TemplateFault {
    /// The fault in words.
    pub open spec fn message(self) -> Seq<char> {
        match self {
            TemplateFault::UnknownSubstitution(name) => "substitution `"@ + name
                + "` in template is unknown"@,
            TemplateFault::NoSuchTemplate(name) => "No such template: "@ + name,
        }
    }
}

impl TemplateError {
    /// The error in words.
    pub fn message(&self) -> (r: String)
        ensures
            r@ == self@.message(),
    {
        match self {
            TemplateError::UnknownSubstitution(name) => {
                let begun = concat("substitution `", name.as_str());
                concat(begun.as_str(), "` in template is unknown")
            },
            TemplateError::NoSuchTemplate(name) => concat("No such template: ", name.as_str()),
        }
    }
}

/// `c` can begin the name of a placeholder.
pub open spec fn is_name_start(c: char) -> bool {
    ('A' <= c && c <= 'Z') || ('a' <= c && c <= 'z') || c == '_'
}

/// `c` can stand inside the name of a placeholder.
pub open spec fn is_name_char(c: char) -> bool {
    is_name_start(c) || ('0' <= c && c <= '9')
}

/// How many characters that can stand inside a name follow each other in
/// `s` from `from` on.
pub open spec fn name_run(s: Seq<char>, from: int) -> nat
    decreases s.len() - from,
{
    if 0 <= from < s.len() && is_name_char(s[from]) {
        1 + name_run(s, from + 1)
    } else {
        0
    }
}

/// Length of the name of the placeholder that begins at index `i` of `s`,
/// if one begins there.
pub open spec fn placeholder_name_len(s: Seq<char>, i: int) -> Option<nat> {
    if 0 <= i && i + 2 < s.len() && s[i] == '#' && s[i + 1] == '{' && is_name_start(s[i + 2]) {
        let n = 1 + name_run(s, i + 3);
        if i + 2 + n < s.len() && s[i + 2 + n] == '}' {
            Some(n)
        } else {
            None
        }
    } else {
        None
    }
}

/// The names and texts that stand for a list of substitutions.
pub open spec fn subs_view(subs: Seq<(String, String)>) -> Seq<(Seq<char>, Seq<char>)> {
    subs.map_values(|p: (String, String)| (p.0@, p.1@))
}

/// The text of the first substitution named `name` among those from index
/// `from` on.
pub open spec fn lookup(subs: Seq<(Seq<char>, Seq<char>)>, name: Seq<char>, from: int) -> Option<
    Seq<char>,
>
    decreases subs.len() - from,
{
    if from < 0 || from >= subs.len() {
        None
    } else if subs[from].0 == name {
        Some(subs[from].1)
    } else {
        lookup(subs, name, from + 1)
    }
}

/// Expands `src` from index `i` on, `out` being the expansion of what stands
/// before `i`. Gives the name of the first placeholder that `subs` does not
/// know, if there is one.
pub open spec fn expand_fold(
    src: Seq<char>,
    subs: Seq<(Seq<char>, Seq<char>)>,
    i: int,
    out: Seq<char>,
) -> Result<Seq<char>, Seq<char>>
    decreases src.len() - i,
{
    if i < 0 || i >= src.len() {
        Ok(out)
    } else {
        match placeholder_name_len(src, i) {
            Some(n) => {
                let name = src.subrange(i + 2, i + 2 + n);
                match lookup(subs, name, 0) {
                    Some(text) => expand_fold(src, subs, i + 3 + n, out + text),
                    None => Err(name),
                }
            },
            None => expand_fold(src, subs, i + 1, out.push(src[i])),
        }
    }
}

/// `src` with every placeholder replaced by the text that `subs` gives for
/// its name; or the name of the first placeholder that `subs` does not know.
pub open spec fn expanded(src: Seq<char>, subs: Seq<(Seq<char>, Seq<char>)>) -> Result<
    Seq<char>,
    Seq<char>,
> {
    expand_fold(src, subs, 0, Seq::empty())
}

/// A stretch of text without `#` is kept as it is.
pub proof fn lemma_expand_plain(
    src: Seq<char>,
    subs: Seq<(Seq<char>, Seq<char>)>,
    i: int,
    j: int,
    out: Seq<char>,
)
    requires
        0 <= i <= j <= src.len(),
        forall|k: int| i <= k < j ==> src[k] != '#',
    ensures
        expand_fold(src, subs, i, out) == expand_fold(src, subs, j, out + src.subrange(i, j)),
    decreases j - i,
{
    if i < j {
        lemma_expand_plain(src, subs, i + 1, j, out.push(src[i]));
        assert(out.push(src[i]) + src.subrange(i + 1, j) =~= out + src.subrange(i, j));
    } else {
        assert(out + src.subrange(i, j) =~= out);
    }
}

/// A placeholder whose name `subs` knows is replaced by the text that
/// stands for it.
pub proof fn lemma_expand_placeholder(
    src: Seq<char>,
    subs: Seq<(Seq<char>, Seq<char>)>,
    i: int,
    n: nat,
    out: Seq<char>,
)
    requires
        0 <= i < src.len(),
        placeholder_name_len(src, i) == Some(n),
        lookup(subs, src.subrange(i + 2, i + 2 + n), 0) is Some,
    ensures
        expand_fold(src, subs, i, out) == expand_fold(
            src,
            subs,
            i + 3 + n,
            out + lookup(subs, src.subrange(i + 2, i + 2 + n), 0)->Some_0,
        ),
{
}

/// Whether `c` can begin the name of a placeholder.
fn char_is_name_start(c: char) -> (b: bool)
    ensures
        b == is_name_start(c),
{
    ('A' <= c && c <= 'Z') || ('a' <= c && c <= 'z') || c == '_'
}

/// Whether `c` can stand inside the name of a placeholder.
fn char_is_name_char(c: char) -> (b: bool)
    ensures
        b == is_name_char(c),
{
    char_is_name_start(c) || ('0' <= c && c <= '9')
}

/// Length of the name of the placeholder that begins at index `i` of `src`.
fn placeholder_name_len_at(src: &Vec<char>, i: usize) -> (r: Option<usize>)
    requires
        i < src.len(),
    ensures
        match r {
            Some(n) => placeholder_name_len(src@, i as int) == Some(n as nat) && i + 3 + n
                <= src.len(),
            None => placeholder_name_len(src@, i as int) is None,
        },
{
    let len = src.len();
    if len - i > 2 && src[i] == '#' && src[i + 1] == '{' && char_is_name_start(src[i + 2]) {
        let mut j: usize = i + 3;
        while j < len && char_is_name_char(src[j])
            invariant
                i + 3 <= j <= len,
                len == src.len(),
                name_run(src@, i + 3) == (j - (i + 3)) + name_run(src@, j as int),
            decreases len - j,
        {
            j += 1;
        }
        if j < len && src[j] == '}' {
            Some(j - (i + 2))
        } else {
            None
        }
    } else {
        None
    }
}

/// The text of the first substitution named `name`.
fn lookup_in<'a>(subs: &'a Vec<(String, String)>, name: &Vec<char>) -> (r: Option<&'a String>)
    ensures
        match r {
            Some(text) => lookup(subs_view(subs@), name@, 0) == Some(text@),
            None => lookup(subs_view(subs@), name@, 0) is None,
        },
{
    let mut k: usize = 0;
    while k < subs.len()
        invariant
            k <= subs.len(),
            lookup(subs_view(subs@), name@, 0) == lookup(subs_view(subs@), name@, k as int),
        decreases subs.len() - k,
    {
        let key = to_chars(subs[k].0.as_str());
        proof {
            assert(subs_view(subs@)[k as int] == (subs@[k as int].0@, subs@[k as int].1@));
        }
        if key.len() == name.len() && starts_with_at(&key, 0, name) {
            proof {
                assert(key@.skip(0) =~= key@);
                assert(key@.subrange(0, name@.len() as int) =~= key@);
            }
            return Some(&subs[k].1);
        }
        proof {
            if key@ == name@ {
                assert(key@.skip(0) =~= key@);
                assert(key@.subrange(0, name@.len() as int) =~= key@);
            }
        }
        k += 1;
    }
    None
}

/// Expands the placeholders of `src`.
///
/// Each `#{name}` is replaced by the text of the first substitution in
/// `subs` whose name is `name`; everything else is kept as it is. Fails on
/// the first placeholder that `subs` does not name.
pub fn expand(src: &str, subs: &Vec<(String, String)>) -> (r: Result<String, TemplateError>)
    ensures
        match r {
            Ok(out) => expanded(src@, subs_view(subs@)) == Ok::<Seq<char>, Seq<char>>(out@),
            Err(e) => match e {
                TemplateError::UnknownSubstitution(name) => expanded(src@, subs_view(subs@))
                    == Err::<Seq<char>, Seq<char>>(name@),
                TemplateError::NoSuchTemplate(_) => false,
            },
        },
{
    let chars = to_chars(src);
    let mut out: Vec<char> = Vec::new();
    let mut i: usize = 0;
    while i < chars.len()
        invariant
            i <= chars.len(),
            chars@ == src@,
            expanded(src@, subs_view(subs@)) == expand_fold(
                src@,
                subs_view(subs@),
                i as int,
                out@,
            ),
        decreases chars.len() - i,
    {
        match placeholder_name_len_at(&chars, i) {
            Some(n) => {
                let name = copy_range(&chars, i + 2, i + 2 + n);
                match lookup_in(subs, &name) {
                    Some(text) => {
                        push_str(&mut out, text.as_str());
                        i = i + 3 + n;
                    },
                    None => {
                        return Err(TemplateError::UnknownSubstitution(from_chars(&name)));
                    },
                }
            },
            None => {
                out.push(chars[i]);
                i += 1;
            },
        }
    }
    Ok(from_chars(&out))
}

/// The text of the built-in template called `name`.
pub open spec fn builtin(name: Seq<char>) -> Option<&'static str> {
    if name == "expr"@ {
        Some(EXPR_TEMPLATE)
    } else if name == "file"@ {
        Some(FILE_TEMPLATE)
    } else {
        None
    }
}

/// The built-in template called `name`: `expr` or `file`.
pub fn builtin_template(name: &str) -> (r: Option<&'static str>)
    ensures
        r == builtin(name@),
{
    if str_eq(name, "expr") {
        Some(EXPR_TEMPLATE)
    } else if str_eq(name, "file") {
        Some(FILE_TEMPLATE)
    } else {
        None
    }
}

/// The text of the template called `name`, or an error that names it.
pub fn get_template(name: &str) -> (r: Result<&'static str, TemplateError>)
    ensures
        match r {
            Ok(text) => builtin(name@) == Some(text),
            Err(e) => builtin(name@) is None && e@ == TemplateFault::NoSuchTemplate(name@),
        },
{
    match builtin_template(name) {
        Some(text) => Ok(text),
        None => Err(TemplateError::NoSuchTemplate(owned(name))),
    }
}

/// Where the placeholder for the script stands in the template for
/// expressions.
pub const EXPR_SCRIPT_AT: usize = 546;

/// The text that stands for the script, and for nothing else.
pub open spec fn script_sub(body: Seq<char>) -> Seq<(Seq<char>, Seq<char>)> {
    seq![(SCRIPT_BODY_SUB@, body)]
}

/// The program that evaluates the expression `body`: the template for
/// expressions with the expression in the place of the script.
pub open spec fn expr_program(body: Seq<char>) -> Seq<char> {
    EXPR_TEMPLATE@.take(EXPR_SCRIPT_AT as int) + body + EXPR_TEMPLATE@.skip(EXPR_SCRIPT_AT + 9)
}

/// The template for files is the script and nothing else.
pub proof fn lemma_file_template(body: Seq<char>)
    ensures
        builtin("file"@) == Some(FILE_TEMPLATE),
        expanded(FILE_TEMPLATE@, script_sub(body)) == Ok::<Seq<char>, Seq<char>>(body),
{
    reveal_strlit("file");
    reveal_strlit("expr");
    reveal_strlit("script");
    reveal_strlit("#{script}");
    assert("file"@ != "expr"@) by {
        assert("file"@[0] == 'f');
        assert("expr"@[0] == 'e');
    }
    let src = FILE_TEMPLATE@;
    reveal_with_fuel(name_run, 8);
    reveal_with_fuel(lookup, 2);
    assert(src.subrange(2, 8) =~= SCRIPT_BODY_SUB@);
    assert(placeholder_name_len(src, 0) == Some(6nat));
    lemma_expand_placeholder(src, script_sub(body), 0, 6, Seq::empty());
    assert(Seq::<char>::empty() + body =~= body);
}

/// The template for expressions holds the script once: it can always be
/// filled, and gives the program for the expression.
pub proof fn lemma_expr_template(body: Seq<char>)
    ensures
        builtin("expr"@) == Some(EXPR_TEMPLATE),
        expanded(EXPR_TEMPLATE@, script_sub(body)) == Ok::<Seq<char>, Seq<char>>(
            expr_program(body),
        ),
{
    reveal_strlit("script");
    reveal_strlit(
        r#"
use std::any::{Any, TypeId};

fn main() {
    let exit_code = match try_main() {
        Ok(()) => None,
        Err(e) => {
            use std::io::{self, Write};
            let _ = writeln!(io::stderr(), "Error: {}", e);
            Some(1)
        },
    };
    if let Some(exit_code) = exit_code {
        std::process::exit(exit_code);
    }
}

fn try_main() -> Result<(), Box<dyn std::error::Error>> {
    fn _rust_script_is_empty_tuple<T: ?Sized + Any>(_s: &T) -> bool {
        TypeId::of::<()>() == TypeId::of::<T>()
    }
    match {#{script}} {
        __rust_script_expr if !_rust_script_is_empty_tuple(&__rust_script_expr) => println!("{:?}", __rust_script_expr),
        _ => {}
    }
    Ok(())
}
"#,
    );
    let src = EXPR_TEMPLATE@;
    let subs = script_sub(body);
    assert(src.len() == 715);
    reveal_with_fuel(name_run, 8);
    reveal_with_fuel(lookup, 2);
    let e = Seq::<char>::empty();
    let a = e + src.subrange(0, 546);
    lemma_expand_plain(src, subs, 0, 546, e);
    assert(src.subrange(548, 554) =~= SCRIPT_BODY_SUB@);
    assert(placeholder_name_len(src, 546) == Some(6nat));
    lemma_expand_placeholder(src, subs, 546, 6, a);
    lemma_expand_plain(src, subs, 555, 715, a + body);
    assert(a + body + src.subrange(555, 715) =~= expr_program(body));
}

/// Puts `body` in the place of the script in the template called `name`,
/// where there is such a template and it holds no other placeholder.
fn fill(name: &str, body: &str) -> (r: Option<String>)
    ensures
        match r {
            Some(source) => builtin(name@) is Some && expanded(
                builtin(name@)->Some_0@,
                script_sub(body@),
            ) == Ok::<Seq<char>, Seq<char>>(source@),
            None => builtin(name@) is None || expanded(builtin(name@)->Some_0@, script_sub(body@))
                is Err,
        },
{
    let template = match get_template(name) {
        Ok(t) => t,
        Err(_) => {
            return None;
        },
    };
    let mut subs: Vec<(String, String)> = Vec::new();
    subs.push((owned(SCRIPT_BODY_SUB), owned(body)));
    proof {
        assert(subs_view(subs@) =~= script_sub(body@));
    }
    match expand(template, &subs) {
        Ok(source) => Some(source),
        Err(_) => None,
    }
}

/// Puts the program text `body` of a file into the template for files,
/// which leaves it as it is.
pub fn file_source(body: &str) -> (r: String)
    ensures
        r@ == body@,
{
    proof {
        lemma_file_template(body@);
    }
    match fill("file", body) {
        Some(source) => source,
        None => unreached(),
    }
}

/// Puts the expression `body` into the template for expressions.
pub fn expr_source(body: &str) -> (r: String)
    ensures
        r@ == expr_program(body@),
{
    proof {
        lemma_expr_template(body@);
    }
    match fill("expr", body) {
        Some(source) => source,
        None => unreached(),
    }
}

} // verus!

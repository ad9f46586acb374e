//! The program text of a script: its shebang line, its entry point, and the
//! entry point that is put around a script that has none.

use crate::text::{
    from_chars, lines, owned, push_str, skip_whitespace_from, split_lines, starts_with_at,
    to_chars, trim_start, views,
};
use vstd::prelude::*;
use vstd::string::StrSliceExecFns;

verus! {

/// How many characters other than a line feed follow each other in `s` from
/// `from` on.
pub open spec fn run_to_line_feed(s: Seq<char>, from: int) -> nat
    decreases s.len() - from,
{
    if 0 <= from < s.len() && s[from] != '\n' {
        1 + run_to_line_feed(s, from + 1)
    } else {
        0
    }
}

/// Length of the shebang line that `s` begins with, its line feed included.
///
/// A shebang line begins with `#!`, goes on with anything but `[`, and ends
/// with a line feed.
pub open spec fn shebang_len(s: Seq<char>) -> Option<nat> {
    if s.len() >= 2 && s[0] == '#' && s[1] == '!' && (s.len() == 2 || s[2] != '[') {
        let k = 2 + run_to_line_feed(s, 2);
        if k < s.len() {
            Some(k + 1)
        } else {
            None
        }
    } else {
        None
    }
}

/// `s` without the shebang line that it begins with, if it begins with one.
pub open spec fn without_shebang(s: Seq<char>) -> Seq<char> {
    match shebang_len(s) {
        Some(n) => s.skip(n as int),
        None => s,
    }
}

/// `line` declares the entry point of a program.
pub open spec fn declares_main(line: Seq<char>) -> bool {
    let t = trim_start(line);
    "fn main("@.is_prefix_of(t) || "pub fn main("@.is_prefix_of(t) || "async fn main("@.is_prefix_of(
        t,
    ) || "pub async fn main("@.is_prefix_of(t)
}

/// One of the first `n` lines of `ls` declares an entry point.
pub open spec fn any_declares_main(ls: Seq<Seq<char>>, n: int) -> bool {
    exists|i: int| 0 <= i < n && i < ls.len() && declares_main(#[trigger] ls[i])
}

/// A line of `src` declares an entry point.
pub open spec fn has_entry_point(src: Seq<char>) -> bool {
    any_declares_main(lines(src), lines(src).len() as int)
}

/// What the entry point that is put around a script begins with.
pub const WRAP_OPEN: &'static str =
    "fn main() -> Result<(), Box<dyn std::error::Error+Sync+Send>> {\t{";

/// What stands directly before the script inside that entry point.
pub const WRAP_INDENT: &'static str = "    ";

/// What that entry point ends with.
pub const WRAP_CLOSE: &'static str = "    }\n    Ok(())\n}";

/// What parts the opening of the entry point from the script: a line feed
/// where a shebang line was taken off, a tab where none was.
pub open spec fn separator(shebang: bool) -> char {
    if shebang {
        '\n'
    } else {
        '\t'
    }
}

/// `body` inside the entry point that is put around a script.
pub open spec fn wrapped(body: Seq<char>, shebang: bool) -> Seq<char> {
    WRAP_OPEN@.push(separator(shebang)) + WRAP_INDENT@ + body + WRAP_CLOSE@
}

/// The program text for the script `content`: the script itself where it
/// declares an entry point, and else the script, without its shebang line,
/// inside an entry point of its own.
pub open spec fn program_text(content: Seq<char>) -> Seq<char> {
    if has_entry_point(content) {
        content
    } else {
        wrapped(without_shebang(content), shebang_len(content) is Some)
    }
}

/// How many of the first `n` characters of `s` are line feeds: the number,
/// counted from 0, of the line on which the character at index `n` stands.
pub open spec fn line_feeds(s: Seq<char>, n: int) -> nat
    decreases n,
{
    if n <= 0 || n > s.len() {
        0
    } else {
        line_feeds(s, n - 1) + if s[n - 1] == '\n' {
            1nat
        } else {
            0nat
        }
    }
}

/// Text without a line feed counts none.
proof fn lemma_line_feeds_none(s: Seq<char>, n: int)
    requires
        0 <= n <= s.len(),
        forall|i: int| 0 <= i < n ==> s[i] != '\n',
    ensures
        line_feeds(s, n) == 0,
    decreases n,
{
    if n > 0 {
        lemma_line_feeds_none(s, n - 1);
    }
}

/// What follows a text does not change the line feeds in it.
proof fn lemma_line_feeds_prefix(a: Seq<char>, b: Seq<char>, n: int)
    requires
        0 <= n <= a.len(),
    ensures
        line_feeds(a + b, n) == line_feeds(a, n),
    decreases n,
{
    if n > 0 {
        lemma_line_feeds_prefix(a, b, n - 1);
    }
}

/// The line feeds of two texts that follow each other add up.
proof fn lemma_line_feeds_concat(a: Seq<char>, b: Seq<char>, k: int)
    requires
        0 <= k <= b.len(),
    ensures
        line_feeds(a + b, a.len() + k) == line_feeds(a, a.len() as int) + line_feeds(b, k),
    decreases k,
{
    if k > 0 {
        lemma_line_feeds_concat(a, b, k - 1);
        assert((a + b)[a.len() + k - 1] == b[k - 1]);
    } else {
        lemma_line_feeds_prefix(a, b, a.len() as int);
    }
}

/// A run of characters other than line feeds holds none, and ends at one or
/// at the end of the text.
proof fn lemma_run_to_line_feed(s: Seq<char>, from: int)
    requires
        0 <= from <= s.len(),
    ensures
        from + run_to_line_feed(s, from) <= s.len(),
        forall|i: int| from <= i < from + run_to_line_feed(s, from) ==> s[i] != '\n',
        from + run_to_line_feed(s, from) < s.len() ==> s[from + run_to_line_feed(s, from)] == '\n',
    decreases s.len() - from,
{
    if from < s.len() && s[from] != '\n' {
        lemma_run_to_line_feed(s, from + 1);
    }
}

/// A shebang line holds one line feed, its last character.
pub proof fn lemma_shebang_is_one_line(s: Seq<char>)
    requires
        shebang_len(s) is Some,
    ensures
        2 < shebang_len(s)->Some_0 <= s.len(),
        line_feeds(s, shebang_len(s)->Some_0 as int) == 1,
{
    let n = shebang_len(s)->Some_0 as int;
    lemma_run_to_line_feed(s, 2);
    lemma_line_feeds_none(s, n - 1);
}

/// What the entry point begins with holds no line feed.
proof fn lemma_wrap_opening_is_one_line()
    ensures
        line_feeds(WRAP_OPEN@, WRAP_OPEN@.len() as int) == 0,
        line_feeds(WRAP_INDENT@, WRAP_INDENT@.len() as int) == 0,
{
    reveal_strlit("fn main() -> Result<(), Box<dyn std::error::Error+Sync+Send>> {\t{");
    reveal_strlit("    ");
    lemma_line_feeds_none(WRAP_OPEN@, WRAP_OPEN@.len() as int);
    lemma_line_feeds_none(WRAP_INDENT@, WRAP_INDENT@.len() as int);
}

/// Where the character at index `k` of a script without its shebang line
/// stands in the wrapped program text.
pub open spec fn wrapped_index(k: int) -> int {
    WRAP_OPEN@.len() + 1 + WRAP_INDENT@.len() + k
}

/// Wrapping keeps line numbers: a character of the script stands on the same
/// line of the wrapped program text as of the script it came from, shebang
/// line included.
pub proof fn lemma_wrapping_keeps_line_numbers(content: Seq<char>, k: int)
    requires
        0 <= k <= without_shebang(content).len(),
    ensures
        line_feeds(
            wrapped(without_shebang(content), shebang_len(content) is Some),
            wrapped_index(k),
        ) == line_feeds(content, content.len() - without_shebang(content).len() + k),
{
    let body = without_shebang(content);
    let shebang = shebang_len(content) is Some;
    let sep = seq![separator(shebang)];
    let head = WRAP_OPEN@ + sep + WRAP_INDENT@;
    assert(WRAP_OPEN@.push(separator(shebang)) =~= WRAP_OPEN@ + sep);
    assert(wrapped(body, shebang) =~= (head + body) + WRAP_CLOSE@);
    lemma_wrap_opening_is_one_line();
    lemma_line_feeds_concat(WRAP_OPEN@, sep, 1);
    assert(line_feeds(sep, 1) == if shebang {
        1nat
    } else {
        0nat
    }) by {
        assert(line_feeds(sep, 0) == 0);
    }
    lemma_line_feeds_concat(WRAP_OPEN@ + sep, WRAP_INDENT@, WRAP_INDENT@.len() as int);
    lemma_line_feeds_concat(head, body, k);
    lemma_line_feeds_prefix(head + body, WRAP_CLOSE@, head.len() + k);
    if shebang {
        let n = shebang_len(content)->Some_0 as int;
        lemma_shebang_is_one_line(content);
        let first = content.take(n);
        assert(content =~= first + body);
        lemma_line_feeds_concat(first, body, k);
        lemma_line_feeds_prefix(first, body, n);
    } else {
        assert(line_feeds(Seq::<char>::empty(), 0) == 0);
        assert(Seq::<char>::empty() + body =~= body);
    }
}

/// Length of the shebang line that `v` begins with, its line feed included.
fn shebang_len_of(v: &Vec<char>) -> (r: Option<usize>)
    ensures
        match r {
            Some(n) => shebang_len(v@) == Some(n as nat) && n <= v.len(),
            None => shebang_len(v@) is None,
        },
{
    if v.len() >= 2 && v[0] == '#' && v[1] == '!' && (v.len() == 2 || v[2] != '[') {
        let mut k: usize = 2;
        while k < v.len() && v[k] != '\n'
            invariant
                2 <= k <= v.len(),
                run_to_line_feed(v@, 2) == (k - 2) + run_to_line_feed(v@, k as int),
            decreases v.len() - k,
        {
            k += 1;
        }
        if k < v.len() {
            Some(k + 1)
        } else {
            None
        }
    } else {
        None
    }
}

/// Takes the shebang line off `s`, if `s` begins with one, and says whether
/// it did.
pub fn strip_shebang(s: &str) -> (r: (&str, bool))
    ensures
        r.0@ == without_shebang(s@),
        r.1 == (shebang_len(s@) is Some),
{
    let v = to_chars(s);
    match shebang_len_of(&v) {
        Some(n) => {
            let rest = s.substring_char(n, v.len());
            proof {
                assert(s@.subrange(n as int, s@.len() as int) =~= s@.skip(n as int));
            }
            (rest, true)
        },
        None => (s, false),
    }
}

/// Whether `line` declares the entry point of a program.
fn line_declares_main(line: &Vec<char>) -> (b: bool)
    ensures
        b == declares_main(line@),
{
    let w = skip_whitespace_from(line, 0);
    let a = to_chars("fn main(");
    let b = to_chars("pub fn main(");
    let c = to_chars("async fn main(");
    let d = to_chars("pub async fn main(");
    starts_with_at(line, w, &a) || starts_with_at(line, w, &b) || starts_with_at(line, w, &c)
        || starts_with_at(line, w, &d)
}

/// Whether a line of `src` declares an entry point.
pub fn contains_main_method(src: &str) -> (b: bool)
    ensures
        b == has_entry_point(src@),
{
    let v = to_chars(src);
    let ls = split_lines(&v);
    let mut i: usize = 0;
    while i < ls.len()
        invariant
            i <= ls.len(),
            views(ls@) == lines(src@),
            !any_declares_main(lines(src@), i as int),
        decreases ls.len() - i,
    {
        proof {
            assert(views(ls@)[i as int] == ls@[i as int]@);
        }
        if line_declares_main(&ls[i]) {
            return true;
        }
        i += 1;
    }
    false
}

/// Puts the entry point around `body`, a script without its shebang line;
/// `shebang` says whether such a line was taken off.
pub fn wrap_in_main(body: &str, shebang: bool) -> (r: String)
    ensures
        r@ == wrapped(body@, shebang),
{
    let mut out = to_chars(WRAP_OPEN);
    out.push(if shebang {
        '\n'
    } else {
        '\t'
    });
    push_str(&mut out, WRAP_INDENT);
    push_str(&mut out, body);
    push_str(&mut out, WRAP_CLOSE);
    from_chars(&out)
}

/// The program text for the script `content`.
///
/// A script that declares an entry point is kept as it is. Any other is put,
/// without its shebang line, inside an entry point of its own, in such a way
/// that every line keeps its number.
pub fn script_source(content: &str) -> (r: String)
    ensures
        r@ == program_text(content@),
{
    if contains_main_method(content) {
        owned(content)
    } else {
        let (body, shebang) = strip_shebang(content);
        wrap_in_main(body, shebang)
    }
}

} // verus!

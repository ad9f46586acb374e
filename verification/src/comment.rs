//! The text of a leading documentation comment, with its markers, its margin
//! and its indentation taken off.
//!
//! Two forms are read: a block comment opened by `/*!`, in which nested block
//! comments are followed to find the true end, and a run of line comments
//! opened by `//!` or `///`.

use crate::text::{
    copy_range, debug_quote, debug_text, decimal, decimal_of, from_chars, lemma_total_len_skip,
    lines, owned, push_range, push_str, skip_whitespace, skip_whitespace_from, split_lines,
    to_chars, total_len, views,
};
use vstd::prelude::*;

verus! {

/// Why no comment text could be taken from a source.
#[derive(Debug, PartialEq, Eq)]
pub enum CommentError {
    /// The text does not begin with `/*!`, `//!` or `///`.
    NoDocComment,
    /// A line of the comment is indented by something other than spaces:
    /// among the first `count` characters of `line` one is no space.
    LeadingNotSpaces { count: usize, line: String },
}

/// What a `CommentError` stands for.
pub enum CommentFault {
    NoDocComment,
    LeadingNotSpaces { count: nat, line: Seq<char> },
}

impl View for CommentError {
    type V = CommentFault;

    open spec fn view(&self) -> CommentFault {
        match self {
            CommentError::NoDocComment => CommentFault::NoDocComment,
            CommentError::LeadingNotSpaces { count, line } => CommentFault::LeadingNotSpaces {
                count: *count as nat,
                line: line@,
            },
        }
    }
}

impl CommentFault {
    /// The fault in words.
    pub open spec fn message(self) -> Seq<char> {
        match self {
            CommentFault::NoDocComment => "no doc comment found"@,
            CommentFault::LeadingNotSpaces { count, line } => "leading "@ + decimal(count)
                + " chars aren't all spaces: "@ + debug_text(line),
        }
    }
}

impl CommentError {
    /// The error in words.
    pub fn message(&self) -> (r: String)
        ensures
            r@ == self@.message(),
    {
        match self {
            CommentError::NoDocComment => owned("no doc comment found"),
            CommentError::LeadingNotSpaces { count, line } => {
                let mut out = to_chars("leading ");
                let digits = decimal_of(*count as u128);
                push_range(&mut out, &digits, 0, digits.len());
                proof {
                    assert(digits@.subrange(0, digits@.len() as int) =~= digits@);
                }
                push_str(&mut out, " chars aren't all spaces: ");
                let quoted = debug_quote(line.as_str());
                push_str(&mut out, quoted.as_str());
                from_chars(&out)
            },
        }
    }
}

/// What is known while the lines of a block comment are read.
pub struct BlockState {
    /// How many block comments are open; 0 once the comment has ended.
    pub depth: nat,
    /// Width of the margin, once a line has shown one.
    pub margin: Option<nat>,
    /// Width of the indentation, once a line has shown one.
    pub indent: Option<nat>,
    /// The text gathered so far.
    pub out: Seq<char>,
}

/// Follows the markers `/*` and `*/` in `line` from `from` on, `depth` block
/// comments being open. Gives the depth at the end of the line and, where the
/// comment closes on this line, the index of the closing marker.
pub open spec fn scan_markers(line: Seq<char>, from: int, depth: nat) -> (nat, Option<int>)
    decreases line.len() - from,
{
    if from < 0 || from + 1 >= line.len() {
        (depth, None)
    } else if line[from] == '/' && line[from + 1] == '*' {
        scan_markers(line, from + 2, depth + 1)
    } else if line[from] == '*' && line[from + 1] == '/' {
        if depth <= 1 {
            (0, Some(from))
        } else {
            scan_markers(line, from + 2, (depth - 1) as nat)
        }
    } else {
        scan_markers(line, from + 1, depth)
    }
}

/// How many characters the margin has that `line` begins with: whitespace,
/// a `*`, and then one space or the end of the line.
pub open spec fn margin_width(line: Seq<char>) -> Option<nat> {
    let w = skip_whitespace(line, 0);
    if w < line.len() && line[w] == '*' && (w + 1 == line.len() || line[w + 1] == ' ') {
        Some(
            if w + 1 < line.len() {
                (w + 2) as nat
            } else {
                (w + 1) as nat
            },
        )
    } else {
        None
    }
}

/// How many characters of whitespace `line` begins with, if it begins with
/// any.
pub open spec fn indent_width(line: Seq<char>) -> Option<nat> {
    let w = skip_whitespace(line, 0);
    if w > 0 {
        Some(w as nat)
    } else {
        None
    }
}

/// The first `n` characters of `line`, as far as it has them, are spaces.
pub open spec fn leading_spaces(line: Seq<char>, n: nat) -> bool {
    forall|j: int| 0 <= j < line.len() && j < n ==> line[j] == ' '
}

/// `line` without its first `n` characters, or empty where it has fewer.
pub open spec fn drop_chars(line: Seq<char>, n: nat) -> Seq<char> {
    if n < line.len() {
        line.skip(n as int)
    } else {
        Seq::empty()
    }
}

/// `known`, or else `found`.
pub open spec fn first_known(known: Option<nat>, found: Option<nat>) -> Option<nat> {
    if known is Some {
        known
    } else {
        found
    }
}

/// Width held by `w`, or 0.
pub open spec fn width_or_zero(w: Option<nat>) -> nat {
    match w {
        Some(n) => n,
        None => 0,
    }
}

/// Reads one line of a block comment.
pub open spec fn block_line(st: BlockState, line: Seq<char>) -> Result<BlockState, CommentFault> {
    let (depth, end) = scan_markers(line, 0, st.depth);
    let kept = match end {
        Some(e) => line.take(e),
        None => line,
    };
    let margin = first_known(st.margin, margin_width(kept));
    let body = drop_chars(kept, width_or_zero(margin));
    let indent = first_known(st.indent, indent_width(body));
    let n = width_or_zero(indent);
    if leading_spaces(body, n) {
        Ok(BlockState { depth, margin, indent, out: st.out + drop_chars(body, n) + seq!['\n'] })
    } else {
        Err(CommentFault::LeadingNotSpaces { count: n, line: body })
    }
}

/// Reads the lines of a block comment from line `i` on, until the comment
/// has ended or no line is left.
pub open spec fn block_fold(ls: Seq<Seq<char>>, i: int, st: BlockState) -> Result<
    Seq<char>,
    CommentFault,
>
    decreases ls.len() - i,
{
    if i < 0 || i >= ls.len() || st.depth == 0 {
        Ok(st.out)
    } else {
        match block_line(st, ls[i]) {
            Ok(next) => block_fold(ls, i + 1, next),
            Err(e) => Err(e),
        }
    }
}

/// The text of the block comment whose opening `/*!` stood directly before
/// `s`.
pub open spec fn block_comment_text(s: Seq<char>) -> Result<Seq<char>, CommentFault> {
    block_fold(lines(s), 0, BlockState { depth: 1, margin: None, indent: None, out: Seq::empty() })
}

/// Index behind the marker of a line comment that `line` begins with:
/// whitespace, then `//!` or `///`.
pub open spec fn line_marker_end(line: Seq<char>) -> Option<int> {
    let w = skip_whitespace(line, 0);
    if w + 2 < line.len() && line[w] == '/' && line[w + 1] == '/' && (line[w + 2] == '!' || line[w
        + 2] == '/') {
        Some(w + 3)
    } else {
        None
    }
}

/// Reads line comments from line `i` on, until a line is no such comment or
/// no line is left.
pub open spec fn line_fold(ls: Seq<Seq<char>>, i: int, indent: Option<nat>, out: Seq<char>) -> Result<
    Seq<char>,
    CommentFault,
>
    decreases ls.len() - i,
{
    if i < 0 || i >= ls.len() {
        Ok(out)
    } else {
        match line_marker_end(ls[i]) {
            None => Ok(out),
            Some(e) => {
                let body = ls[i].skip(e);
                let indent = first_known(indent, indent_width(body));
                let n = width_or_zero(indent);
                if leading_spaces(body, n) {
                    line_fold(ls, i + 1, indent, out + drop_chars(body, n) + seq!['\n'])
                } else {
                    Err(CommentFault::LeadingNotSpaces { count: n, line: body })
                }
            },
        }
    }
}

/// The text of the run of line comments that `s` begins with.
pub open spec fn line_comment_text(s: Seq<char>) -> Result<Seq<char>, CommentFault> {
    line_fold(lines(s), 0, None, Seq::empty())
}

/// `s` begins with `/*!`.
pub open spec fn opens_block_doc(s: Seq<char>) -> bool {
    s.len() >= 3 && s[0] == '/' && s[1] == '*' && s[2] == '!'
}

/// `s` begins with `//!` or `///`.
pub open spec fn opens_line_doc(s: Seq<char>) -> bool {
    s.len() >= 3 && s[0] == '/' && s[1] == '/' && (s[2] == '!' || s[2] == '/')
}

/// The text of the documentation comment that `s` begins with.
pub open spec fn comment_text(s: Seq<char>) -> Result<Seq<char>, CommentFault> {
    if opens_block_doc(s) {
        block_comment_text(s.skip(3))
    } else if opens_line_doc(s) {
        line_comment_text(s)
    } else {
        Err(CommentFault::NoDocComment)
    }
}

/// The width that an executable `Option<usize>` stands for.
pub open spec fn width_view(w: Option<usize>) -> Option<nat> {
    match w {
        Some(n) => Some(n as nat),
        None => None,
    }
}

/// Follows the markers `/*` and `*/` in `line`, `depth` block comments being
/// open.
fn scan_markers_in(line: &Vec<char>, depth: usize) -> (r: (usize, Option<usize>))
    requires
        depth + line.len() <= usize::MAX,
    ensures
        r.0 as nat == scan_markers(line@, 0, depth as nat).0,
        match r.1 {
            Some(e) => scan_markers(line@, 0, depth as nat).1 == Some(e as int) && e <= line.len(),
            None => scan_markers(line@, 0, depth as nat).1 is None,
        },
        r.0 <= depth + line.len(),
{
    let mut d: usize = depth;
    let mut i: usize = 0;
    while i < line.len() && i + 1 < line.len()
        invariant
            i <= line.len(),
            d + (line.len() - i) <= depth + line.len(),
            depth + line.len() <= usize::MAX,
            scan_markers(line@, 0, depth as nat) == scan_markers(line@, i as int, d as nat),
        decreases line.len() - i,
    {
        if line[i] == '/' && line[i + 1] == '*' {
            d += 1;
            i += 2;
        } else if line[i] == '*' && line[i + 1] == '/' {
            if d <= 1 {
                return (0, Some(i));
            }
            d -= 1;
            i += 2;
        } else {
            i += 1;
        }
    }
    (d, None)
}

/// How many characters the margin has that `line` begins with.
fn margin_width_of(line: &Vec<char>) -> (r: Option<usize>)
    ensures
        width_view(r) == margin_width(line@),
{
    let w = skip_whitespace_from(line, 0);
    if w < line.len() && line[w] == '*' && (w + 1 == line.len() || line[w + 1] == ' ') {
        if w + 1 < line.len() {
            Some(w + 2)
        } else {
            Some(w + 1)
        }
    } else {
        None
    }
}

/// How many characters of whitespace `line` begins with.
fn indent_width_of(line: &Vec<char>) -> (r: Option<usize>)
    ensures
        width_view(r) == indent_width(line@),
{
    let w = skip_whitespace_from(line, 0);
    if w > 0 {
        Some(w)
    } else {
        None
    }
}

/// How many characters of a line of `len` characters a width of `n` covers.
fn covered(len: usize, n: usize) -> (k: usize)
    ensures
        k as nat == if n < len {
            n as nat
        } else {
            len as nat
        },
{
    if n < len {
        n
    } else {
        len
    }
}

/// Whether the first `n` characters of `line`, as far as it has them, are
/// spaces.
fn has_leading_spaces(line: &Vec<char>, n: usize) -> (b: bool)
    ensures
        b == leading_spaces(line@, n as nat),
{
    let k = covered(line.len(), n);
    let mut j: usize = 0;
    while j < k
        invariant
            j <= k <= line.len(),
            k as nat == if n < line.len() {
                n as nat
            } else {
                line.len() as nat
            },
            forall|t: int| 0 <= t < j ==> line@[t] == ' ',
        decreases k - j,
    {
        if line[j] != ' ' {
            return false;
        }
        j += 1;
    }
    true
}

/// `first_known` on executable widths.
fn known_or(known: Option<usize>, found: Option<usize>) -> (r: Option<usize>)
    ensures
        width_view(r) == first_known(width_view(known), width_view(found)),
{
    match known {
        Some(_) => known,
        None => found,
    }
}

/// Width held by `w`, or 0.
fn width_or_0(w: Option<usize>) -> (n: usize)
    ensures
        n as nat == width_or_zero(width_view(w)),
{
    match w {
        Some(n) => n,
        None => 0,
    }
}

/// Takes the indentation off `body` and appends it, with a line feed, to
/// `out`; or reports the indentation that is no run of spaces.
fn push_body(out: &mut Vec<char>, body: Vec<char>, n: usize) -> (r: Result<(), CommentError>)
    ensures
        leading_spaces(body@, n as nat) ==> r is Ok && final(out)@ == old(out)@ + drop_chars(
            body@,
            n as nat,
        ) + seq!['\n'],
        !leading_spaces(body@, n as nat) ==> r is Err && r->Err_0@
            == (CommentFault::LeadingNotSpaces { count: n as nat, line: body@ }),
{
    if has_leading_spaces(&body, n) {
        let k = covered(body.len(), n);
        push_range(out, &body, k, body.len());
        out.push('\n');
        proof {
            assert(body@.subrange(k as int, body@.len() as int) =~= drop_chars(body@, n as nat));
            assert(old(out)@ + drop_chars(body@, n as nat) + seq!['\n'] =~= (old(out)@ + drop_chars(
                body@,
                n as nat,
            )).push('\n'));
        }
        Ok(())
    } else {
        let line = from_chars(&body);
        Err(CommentError::LeadingNotSpaces { count: n, line })
    }
}

/// The text of the block comment whose opening `/*!` stood directly before
/// `text`.
fn extract_block(text: &Vec<char>) -> (r: Result<Vec<char>, CommentError>)
    requires
        text.len() < usize::MAX,
    ensures
        match r {
            Ok(out) => block_comment_text(text@) == Ok::<Seq<char>, CommentFault>(out@),
            Err(e) => block_comment_text(text@) == Err::<Seq<char>, CommentFault>(e@),
        },
{
    let ls = split_lines(text);
    let mut out: Vec<char> = Vec::new();
    let mut depth: usize = 1;
    let mut margin: Option<usize> = None;
    let mut indent: Option<usize> = None;
    let mut i: usize = 0;
    proof {
        assert(views(ls@).skip(0) =~= views(ls@));
    }
    while i < ls.len() && depth != 0
        invariant
            i <= ls.len(),
            views(ls@) == lines(text@),
            depth + total_len(views(ls@).skip(i as int)) <= usize::MAX,
            block_comment_text(text@) == block_fold(
                views(ls@),
                i as int,
                BlockState {
                    depth: depth as nat,
                    margin: width_view(margin),
                    indent: width_view(indent),
                    out: out@,
                },
            ),
        decreases ls.len() - i,
    {
        let line = &ls[i];
        proof {
            lemma_total_len_skip(views(ls@), i as int);
            assert(views(ls@)[i as int] == line@);
        }
        let (d, end) = scan_markers_in(line, depth);
        let kept = match end {
            Some(e) => copy_range(line, 0, e),
            None => copy_range(line, 0, line.len()),
        };
        proof {
            assert(line@.subrange(0, line@.len() as int) =~= line@);
        }
        margin = known_or(margin, margin_width_of(&kept));
        let m = covered(kept.len(), width_or_0(margin));
        let body = copy_range(&kept, m, kept.len());
        proof {
            assert(body@ =~= drop_chars(kept@, width_or_zero(width_view(margin))));
        }
        indent = known_or(indent, indent_width_of(&body));
        match push_body(&mut out, body, width_or_0(indent)) {
            Ok(()) => {},
            Err(e) => {
                return Err(e);
            },
        }
        depth = d;
        i += 1;
    }
    Ok(out)
}

/// Index behind the marker of a line comment that `line` begins with.
fn line_marker_end_of(line: &Vec<char>) -> (r: Option<usize>)
    ensures
        match r {
            Some(e) => line_marker_end(line@) == Some(e as int) && e <= line.len(),
            None => line_marker_end(line@) is None,
        },
{
    let w = skip_whitespace_from(line, 0);
    if w < line.len() && line.len() - w > 2 && line[w] == '/' && line[w + 1] == '/' && (line[w + 2]
        == '!' || line[w + 2] == '/') {
        Some(w + 3)
    } else {
        None
    }
}

/// The text of the run of line comments that `text` begins with.
fn extract_line(text: &Vec<char>) -> (r: Result<Vec<char>, CommentError>)
    ensures
        match r {
            Ok(out) => line_comment_text(text@) == Ok::<Seq<char>, CommentFault>(out@),
            Err(e) => line_comment_text(text@) == Err::<Seq<char>, CommentFault>(e@),
        },
{
    let ls = split_lines(text);
    let mut out: Vec<char> = Vec::new();
    let mut indent: Option<usize> = None;
    let mut i: usize = 0;
    while i < ls.len()
        invariant
            i <= ls.len(),
            views(ls@) == lines(text@),
            line_comment_text(text@) == line_fold(views(ls@), i as int, width_view(indent), out@),
        decreases ls.len() - i,
    {
        let line = &ls[i];
        proof {
            assert(views(ls@)[i as int] == line@);
        }
        match line_marker_end_of(line) {
            None => {
                return Ok(out);
            },
            Some(e) => {
                let body = copy_range(line, e, line.len());
                proof {
                    assert(body@ =~= line@.skip(e as int));
                }
                indent = known_or(indent, indent_width_of(&body));
                match push_body(&mut out, body, width_or_0(indent)) {
                    Ok(()) => {},
                    Err(e) => {
                        return Err(e);
                    },
                }
            },
        }
        i += 1;
    }
    Ok(out)
}

/// The text of the documentation comment that `chars` begins with.
pub fn extract_comment_chars(chars: &Vec<char>) -> (r: Result<Vec<char>, CommentError>)
    ensures
        match r {
            Ok(out) => comment_text(chars@) == Ok::<Seq<char>, CommentFault>(out@),
            Err(e) => comment_text(chars@) == Err::<Seq<char>, CommentFault>(e@),
        },
{
    if chars.len() >= 3 && chars[0] == '/' && chars[1] == '*' && chars[2] == '!' {
        let rest = copy_range(chars, 3, chars.len());
        proof {
            assert(rest@ =~= chars@.skip(3));
        }
        extract_block(&rest)
    } else if chars.len() >= 3 && chars[0] == '/' && chars[1] == '/' && (chars[2] == '!'
        || chars[2] == '/') {
        extract_line(chars)
    } else {
        Err(CommentError::NoDocComment)
    }
}

/// Extracts the text of the documentation comment that `s` begins with.
///
/// Fails where `s` begins with no such comment, and where a line of the
/// comment is indented by anything but spaces.
pub fn extract_comment(s: &str) -> (r: Result<String, CommentError>)
    ensures
        match r {
            Ok(out) => comment_text(s@) == Ok::<Seq<char>, CommentFault>(out@),
            Err(e) => comment_text(s@) == Err::<Seq<char>, CommentFault>(e@),
        },
{
    let chars = to_chars(s);
    match extract_comment_chars(&chars) {
        Ok(out) => Ok(from_chars(&out)),
        Err(e) => Err(e),
    }
}

} // verus!

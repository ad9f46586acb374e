//! Character-level helpers shared by the scanners of this crate.
//!
//! Text is handled as a sequence of `char`s: a `&str` is decoded once into a
//! `Vec<char>`, scanned by index, and encoded again at the end.

use vstd::prelude::*;

verus! {

/// Whether `c` has the Unicode property `White_Space`.
pub open spec fn is_whitespace(c: char) -> bool {
    let u = c as u32;
    (0x09 <= u <= 0x0D) || u == 0x20 || u == 0x85 || u == 0xA0 || u == 0x1680 || (0x2000 <= u
        <= 0x200A) || u == 0x2028 || u == 0x2029 || u == 0x202F || u == 0x205F || u == 0x3000
}

/// The first index at or after `from` that holds no whitespace, or the length
/// of `s` where none is left.
pub open spec fn skip_whitespace(s: Seq<char>, from: int) -> int
    decreases s.len() - from,
{
    if 0 <= from < s.len() && is_whitespace(s[from]) {
        skip_whitespace(s, from + 1)
    } else {
        from
    }
}

/// `s` without its leading whitespace.
pub open spec fn trim_start(s: Seq<char>) -> Seq<char> {
    s.skip(skip_whitespace(s, 0))
}

/// `l` without one trailing carriage return.
pub open spec fn strip_cr(l: Seq<char>) -> Seq<char> {
    if l.len() > 0 && l.last() == '\r' {
        l.drop_last()
    } else {
        l
    }
}

/// The lines of `s` that are still to come when a line began at `start` and
/// everything before `pos` has been seen to hold no line feed.
pub open spec fn lines_from(s: Seq<char>, start: int, pos: int) -> Seq<Seq<char>>
    decreases s.len() - pos,
{
    if pos < 0 || start < 0 || start > pos {
        Seq::empty()
    } else if pos >= s.len() {
        if start < s.len() {
            seq![s.subrange(start, s.len() as int)]
        } else {
            Seq::empty()
        }
    } else if s[pos] == '\n' {
        seq![strip_cr(s.subrange(start, pos))] + lines_from(s, pos + 1, pos + 1)
    } else {
        lines_from(s, start, pos + 1)
    }
}

/// The lines of `s`. A line ends at a line feed, or at the end of the text;
/// the line feed is not part of the line, nor is a carriage return directly
/// before it. Text after the last line feed is a line only if it is not empty.
pub open spec fn lines(s: Seq<char>) -> Seq<Seq<char>> {
    lines_from(s, 0, 0)
}

/// The sum of the lengths of `ls`.
pub open spec fn total_len(ls: Seq<Seq<char>>) -> nat
    decreases ls.len(),
{
    if ls.len() == 0 {
        0
    } else {
        ls[0].len() + total_len(ls.skip(1))
    }
}

/// The views of a vector of character vectors.
pub open spec fn views(v: Seq<Vec<char>>) -> Seq<Seq<char>> {
    v.map_values(|l: Vec<char>| l@)
}

/// The texts of a list of strings.
pub open spec fn strings_view(v: Seq<String>) -> Seq<Seq<char>> {
    v.map_values(|s: String| s@)
}

/// The text that an optional string holds.
pub open spec fn option_view(o: Option<String>) -> Option<Seq<char>> {
    match o {
        Some(s) => Some(s@),
        None => None,
    }
}

/// A copy of `s`.
pub fn owned(s: &str) -> (r: String)
    ensures
        r@ == s@,
{
    from_chars(&to_chars(s))
}

/// `a` followed by `b`.
pub fn concat(a: &str, b: &str) -> (r: String)
    ensures
        r@ == a@ + b@,
{
    let mut v = to_chars(a);
    push_str(&mut v, b);
    from_chars(&v)
}

/// A copy of the strings `v`.
pub fn copy_strings(v: &Vec<String>) -> (r: Vec<String>)
    ensures
        strings_view(r@) == strings_view(v@),
{
    let mut out: Vec<String> = Vec::new();
    let mut i: usize = 0;
    while i < v.len()
        invariant
            i <= v.len(),
            strings_view(out@) == strings_view(v@).take(i as int),
        decreases v.len() - i,
    {
        let s = owned(v[i].as_str());
        proof {
            assert(strings_view(v@)[i as int] == v@[i as int]@);
            assert(strings_view(out@.push(s)) =~= strings_view(out@).push(s@));
            assert(strings_view(v@).take(i + 1) =~= strings_view(v@).take(i as int).push(s@));
        }
        out.push(s);
        i += 1;
    }
    proof {
        assert(strings_view(v@).take(v@.len() as int) =~= strings_view(v@));
    }
    out
}

/// The lines that are still to come are no longer than the text they are cut
/// from.
pub proof fn lemma_lines_total_len(s: Seq<char>, start: int, pos: int)
    requires
        0 <= start <= pos,
    ensures
        total_len(lines_from(s, start, pos)) <= if start < s.len() {
            s.len() - start
        } else {
            0
        },
    decreases s.len() - pos,
{
    if pos >= s.len() {
        if start < s.len() {
            let l = seq![s.subrange(start, s.len() as int)];
            assert(l.skip(1) =~= Seq::<Seq<char>>::empty());
            assert(total_len(l.skip(1)) == 0);
        }
    } else if s[pos] == '\n' {
        lemma_lines_total_len(s, pos + 1, pos + 1);
        let head = strip_cr(s.subrange(start, pos));
        let rest = lines_from(s, pos + 1, pos + 1);
        let l = seq![head] + rest;
        assert(l.skip(1) =~= rest);
        assert(l[0] == head);
    } else {
        lemma_lines_total_len(s, start, pos + 1);
    }
}

/// `total_len` of a sequence is that of its first line and of the rest.
pub proof fn lemma_total_len_skip(ls: Seq<Seq<char>>, i: int)
    requires
        0 <= i < ls.len(),
    ensures
        total_len(ls.skip(i)) == ls[i].len() + total_len(ls.skip(i + 1)),
{
    assert(ls.skip(i).skip(1) =~= ls.skip(i + 1));
}

/// Whether `c` is whitespace.
pub fn char_is_whitespace(c: char) -> (b: bool)
    ensures
        b == is_whitespace(c),
{
    let u: u32 = c as u32;
    (0x09 <= u && u <= 0x0D) || u == 0x20 || u == 0x85 || u == 0xA0 || u == 0x1680 || (0x2000 <= u
        && u <= 0x200A) || u == 0x2028 || u == 0x2029 || u == 0x202F || u == 0x205F || u == 0x3000
}

/// Index of the first character of `v` at or after `from` that is no
/// whitespace.
pub fn skip_whitespace_from(v: &Vec<char>, from: usize) -> (end: usize)
    requires
        from <= v.len(),
    ensures
        end == skip_whitespace(v@, from as int),
        from <= end <= v.len(),
        forall|j: int| from <= j < end ==> is_whitespace(#[trigger] v@[j]),
        end < v.len() ==> !is_whitespace(v@[end as int]),
{
    let mut i: usize = from;
    while i < v.len() && char_is_whitespace(v[i])
        invariant
            from <= i <= v.len(),
            skip_whitespace(v@, from as int) == skip_whitespace(v@, i as int),
            forall|j: int| from <= j < i ==> is_whitespace(#[trigger] v@[j]),
        decreases v.len() - i,
    {
        i += 1;
    }
    i
}

/// Decodes `s` into its characters.
pub fn to_chars(s: &str) -> (out: Vec<char>)
    ensures
        out@ == s@,
{
    let mut out: Vec<char> = Vec::new();
    for c in it: s.chars()
        invariant
            out@ == it.seq().take(it.index() as int),
            it.seq() == s@,
    {
        out.push(c);
    }
    out
}

/// `String::from_iter` over the characters of `chars`: the string that
/// consists of exactly these characters, in order.
#[verifier::external_body]
pub(crate) fn from_chars(chars: &Vec<char>) -> (out: String)
    ensures
        out@ == chars@,
{
    chars.iter().collect()
}

/// Appends the characters `src[from..to]` to `dst`.
pub fn push_range(dst: &mut Vec<char>, src: &Vec<char>, from: usize, to: usize)
    requires
        from <= to <= src.len(),
    ensures
        final(dst)@ == old(dst)@ + src@.subrange(from as int, to as int),
{
    let mut i: usize = from;
    while i < to
        invariant
            from <= i <= to <= src.len(),
            dst@ == old(dst)@ + src@.subrange(from as int, i as int),
        decreases to - i,
    {
        dst.push(src[i]);
        i += 1;
        assert(src@.subrange(from as int, i as int) =~= src@.subrange(from as int, i - 1).push(
            src@[i - 1],
        ));
    }
}

/// Appends the characters of `s` to `dst`.
pub fn push_str(dst: &mut Vec<char>, s: &str)
    ensures
        final(dst)@ == old(dst)@ + s@,
{
    let chars = to_chars(s);
    push_range(dst, &chars, 0, chars.len());
    assert(chars@.subrange(0, chars@.len() as int) =~= chars@);
}

/// A copy of `src[from..to]`.
pub fn copy_range(src: &Vec<char>, from: usize, to: usize) -> (out: Vec<char>)
    requires
        from <= to <= src.len(),
    ensures
        out@ == src@.subrange(from as int, to as int),
{
    let mut out: Vec<char> = Vec::new();
    push_range(&mut out, src, from, to);
    assert(Seq::<char>::empty() + src@.subrange(from as int, to as int) =~= src@.subrange(
        from as int,
        to as int,
    ));
    out
}

/// Whether `pat` stands in `v` at index `from`.
pub fn starts_with_at(v: &Vec<char>, from: usize, pat: &Vec<char>) -> (b: bool)
    requires
        from <= v.len(),
    ensures
        b == pat@.is_prefix_of(v@.skip(from as int)),
{
    if pat.len() > v.len() - from {
        return false;
    }
    let mut i: usize = 0;
    while i < pat.len()
        invariant
            from <= v.len(),
            pat.len() <= v.len() - from,
            i <= pat.len(),
            forall|j: int| 0 <= j < i ==> pat@[j] == v@[from + j],
        decreases pat.len() - i,
    {
        if pat[i] != v[from + i] {
            assert(v@.skip(from as int).subrange(0, pat@.len() as int)[i as int] == v@[from + i]);
            return false;
        }
        i += 1;
    }
    assert(pat@ =~= v@.skip(from as int).subrange(0, pat@.len() as int));
    true
}

/// Whether two strings hold the same characters.
pub fn str_eq(a: &str, b: &str) -> (r: bool)
    ensures
        r == (a@ == b@),
{
    let x = to_chars(a);
    let y = to_chars(b);
    if x.len() != y.len() {
        return false;
    }
    let r = starts_with_at(&x, 0, &y);
    proof {
        assert(x@.skip(0) =~= x@);
        if r {
            assert(y@ =~= x@.subrange(0, y@.len() as int));
            assert(x@.subrange(0, x@.len() as int) =~= x@);
        } else {
            if x@ == y@ {
                assert(y@ =~= x@.subrange(0, y@.len() as int));
            }
        }
    }
    r
}

/// Cuts `v` into its lines.
pub fn split_lines(v: &Vec<char>) -> (out: Vec<Vec<char>>)
    ensures
        views(out@) == lines(v@),
        total_len(lines(v@)) <= v.len(),
{
    let mut out: Vec<Vec<char>> = Vec::new();
    let mut start: usize = 0;
    let mut pos: usize = 0;
    proof {
        lemma_lines_total_len(v@, 0, 0);
        assert(views(out@) =~= Seq::<Seq<char>>::empty());
        assert(Seq::<Seq<char>>::empty() + lines_from(v@, 0, 0) =~= lines_from(v@, 0, 0));
    }
    while pos < v.len()
        invariant
            start <= pos <= v.len(),
            lines(v@) == views(out@) + lines_from(v@, start as int, pos as int),
        decreases v.len() - pos,
    {
        if v[pos] == '\n' {
            let end: usize = if start < pos && v[pos - 1] == '\r' {
                pos - 1
            } else {
                pos
            };
            let line = copy_range(v, start, end);
            proof {
                let raw = v@.subrange(start as int, pos as int);
                if start < pos && v@[pos - 1] == '\r' {
                    assert(raw.last() == '\r');
                    assert(raw.drop_last() =~= v@.subrange(start as int, end as int));
                } else {
                    if raw.len() > 0 {
                        assert(raw.last() == v@[pos - 1]);
                    }
                }
                assert(line@ == strip_cr(raw));
                let rest = lines_from(v@, pos + 1, pos + 1);
                assert(views(out@.push(line)) =~= views(out@).push(line@));
                assert(views(out@).push(line@) + rest =~= views(out@) + (seq![line@] + rest));
            }
            out.push(line);
            start = pos + 1;
        }
        pos += 1;
    }
    if start < v.len() {
        let line = copy_range(v, start, v.len());
        proof {
            assert(views(out@.push(line)) =~= views(out@).push(line@));
            assert(views(out@).push(line@) =~= views(out@) + seq![line@]);
        }
        out.push(line);
    } else {
        assert(views(out@) + Seq::<Seq<char>>::empty() =~= views(out@));
    }
    out
}

/// `src` from index `i` on, with every `pat` that is met on the way from
/// left to right replaced by `with`.
pub open spec fn replaced_from(src: Seq<char>, pat: Seq<char>, with: Seq<char>, i: int) -> Seq<char>
    decreases src.len() - i,
{
    if i < 0 || i >= src.len() || pat.len() == 0 {
        Seq::empty()
    } else if pat.is_prefix_of(src.skip(i)) {
        with + replaced_from(src, pat, with, i + pat.len())
    } else {
        seq![src[i]] + replaced_from(src, pat, with, i + 1)
    }
}

/// `src` with every `pat` replaced by `with`. Where two could overlap, the
/// one further left is replaced.
pub open spec fn replaced(src: Seq<char>, pat: Seq<char>, with: Seq<char>) -> Seq<char> {
    if pat.len() == 0 {
        src
    } else {
        replaced_from(src, pat, with, 0)
    }
}

/// Replaces every `pat` in `src` by `with`. An empty `pat` is met nowhere.
pub fn replace_all(src: &str, pat: &str, with: &str) -> (r: String)
    ensures
        r@ == replaced(src@, pat@, with@),
{
    let s = to_chars(src);
    let p = to_chars(pat);
    let w = to_chars(with);
    if p.len() == 0 {
        return from_chars(&s);
    }
    let mut out: Vec<char> = Vec::new();
    let mut i: usize = 0;
    proof {
        assert(out@ + replaced_from(s@, p@, w@, 0) =~= replaced_from(s@, p@, w@, 0));
    }
    while i < s.len()
        invariant
            i <= s.len(),
            p.len() > 0,
            replaced(s@, p@, w@) == out@ + replaced_from(s@, p@, w@, i as int),
        decreases s.len() - i,
    {
        if starts_with_at(&s, i, &p) {
            proof {
                assert(out@ + (w@ + replaced_from(s@, p@, w@, i + p@.len())) =~= (out@ + w@)
                    + replaced_from(s@, p@, w@, i + p@.len()));
            }
            push_range(&mut out, &w, 0, w.len());
            proof {
                assert(w@.subrange(0, w@.len() as int) =~= w@);
            }
            i = i + p.len();
        } else {
            proof {
                assert(out@ + (seq![s@[i as int]] + replaced_from(s@, p@, w@, i + 1)) =~= out@.push(
                    s@[i as int],
                ) + replaced_from(s@, p@, w@, i + 1));
            }
            out.push(s[i]);
            i += 1;
        }
    }
    proof {
        assert(out@ + Seq::<char>::empty() =~= out@);
    }
    from_chars(&out)
}

/// The character that stands for the digit `d`.
pub open spec fn digit_char(d: int) -> char {
    (('0' as u8) + d) as char
}

/// `n` written in decimal.
pub open spec fn decimal(n: nat) -> Seq<char>
    decreases n,
{
    if n < 10 {
        seq![digit_char(n as int)]
    } else {
        decimal(n / 10).push(digit_char((n % 10) as int))
    }
}

/// Writes `n` in decimal.
pub fn decimal_of(n: u128) -> (r: Vec<char>)
    ensures
        r@ == decimal(n as nat),
    decreases n,
{
    if n < 10 {
        let mut v: Vec<char> = Vec::new();
        v.push((('0' as u8) + (n as u8)) as char);
        proof {
            assert(v@ =~= seq![digit_char(n as int)]);
        }
        v
    } else {
        let mut v = decimal_of(n / 10);
        v.push((('0' as u8) + ((n % 10) as u8)) as char);
        v
    }
}

/// What `{:?}` writes for the string `s`: the string in double quotes, with
/// the characters escaped that cannot stand there as they are.
pub uninterp spec fn debug_text(s: Seq<char>) -> Seq<char>;

/// `format!` with `{:?}` on a string.
#[verifier::external_body]
pub(crate) fn debug_quote(s: &str) -> (r: String)
    ensures
        r@ == debug_text(s@),
{
    format!("{:?}", s)
}

} // verus!

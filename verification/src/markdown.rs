//! The first fenced code block labelled `cargo` in a piece of Markdown.
//!
//! The Markdown is parsed by `pulldown_cmark`; of the events it yields this
//! module keeps what the search reads, and the search itself runs on those.

use crate::text::{from_chars, push_str, to_chars};
use pulldown_cmark::{CodeBlockKind, Event, Options, Parser, Tag};
use vstd::prelude::*;

verus! {

/// What the search reads of one event of the Markdown parser.
#[derive(Debug, PartialEq, Eq)]
pub enum MarkdownEvent {
    /// A fenced code block begins; the field is its info string.
    FencedCodeStart(String),
    /// A code block, fenced or indented, ends.
    CodeBlockEnd,
    /// A run of text.
    Text(String),
    /// Any other event.
    Other,
}

/// What a `MarkdownEvent` stands for.
pub enum MarkdownItem {
    FencedCodeStart(Seq<char>),
    CodeBlockEnd,
    Text(Seq<char>),
    Other,
}

impl View for MarkdownEvent {
    type V = MarkdownItem;

    open spec fn view(&self) -> MarkdownItem {
        match self {
            MarkdownEvent::FencedCodeStart(info) => MarkdownItem::FencedCodeStart(info@),
            MarkdownEvent::CodeBlockEnd => MarkdownItem::CodeBlockEnd,
            MarkdownEvent::Text(text) => MarkdownItem::Text(text@),
            MarkdownEvent::Other => MarkdownItem::Other,
        }
    }
}

/// What a list of events stands for.
pub open spec fn events_view(events: Seq<MarkdownEvent>) -> Seq<MarkdownItem> {
    events.map_values(|e: MarkdownEvent| e@)
}

/// Whether tables are read in documentation comments.
pub const ENABLE_TABLES: bool = true;

/// Whether footnotes are read in documentation comments.
pub const ENABLE_FOOTNOTES: bool = true;

/// The events that `pulldown_cmark::Parser::new_ext` yields for `content`,
/// with its option for tables set as `tables` says and its option for
/// footnotes as `footnotes` says, and no other.
pub uninterp spec fn markdown_events(content: Seq<char>, tables: bool, footnotes: bool) -> Seq<
    MarkdownItem,
>;

/// `pulldown_cmark::Parser::new_ext` on `content`, run to its end. Of its
/// options, `ENABLE_TABLES` is set as `tables` says and `ENABLE_FOOTNOTES`
/// as `footnotes` says. Each event is kept as far as a `MarkdownEvent` can
/// hold it. The parser reads nothing but its arguments, so the events are a
/// function of them.
#[verifier::external_body]
fn parse_markdown(content: &str, tables: bool, footnotes: bool) -> (events: Vec<MarkdownEvent>)
    ensures
        events_view(events@) == markdown_events(content@, tables, footnotes),
{
    let mut options = Options::empty();
    options.set(Options::ENABLE_TABLES, tables);
    options.set(Options::ENABLE_FOOTNOTES, footnotes);
    Parser::new_ext(content, options)
        .map(|event| match event {
            Event::Start(Tag::CodeBlock(CodeBlockKind::Fenced(info))) => {
                MarkdownEvent::FencedCodeStart(info.to_string())
            },
            Event::End(Tag::CodeBlock(_)) => MarkdownEvent::CodeBlockEnd,
            Event::Text(text) => MarkdownEvent::Text(text.to_string()),
            _ => MarkdownEvent::Other,
        })
        .collect()
}

/// `c`, or its lower-case form where `c` is an ASCII capital.
pub open spec fn ascii_lower(c: char) -> char {
    if 'A' <= c && c <= 'Z' {
        ((c as u8) + 32) as char
    } else {
        c
    }
}

/// `info` reads `cargo` when the case of ASCII letters is ignored.
pub open spec fn is_cargo_label(info: Seq<char>) -> bool {
    info.len() == 5 && ascii_lower(info[0]) == 'c' && ascii_lower(info[1]) == 'a' && ascii_lower(
        info[2],
    ) == 'r' && ascii_lower(info[3]) == 'g' && ascii_lower(info[4]) == 'o'
}

/// What is known while the events are read.
pub struct ScrapeState {
    /// The events now read lie inside the block that is being gathered.
    pub inside: bool,
    /// The text gathered so far, once there is any.
    pub found: Option<Seq<char>>,
}

/// Reads one event.
pub open spec fn scrape_step(st: ScrapeState, item: MarkdownItem) -> ScrapeState {
    match item {
        MarkdownItem::FencedCodeStart(info) => if is_cargo_label(info) && st.found is None {
            ScrapeState { inside: true, found: st.found }
        } else {
            st
        },
        MarkdownItem::Text(text) => if st.inside {
            ScrapeState {
                inside: true,
                found: Some(
                    match st.found {
                        Some(t) => t + text,
                        None => text,
                    },
                ),
            }
        } else {
            st
        },
        MarkdownItem::CodeBlockEnd => ScrapeState { inside: false, found: st.found },
        MarkdownItem::Other => st,
    }
}

/// Reads the events from index `i` on.
pub open spec fn scrape_fold(items: Seq<MarkdownItem>, i: int, st: ScrapeState) -> Option<
    Seq<char>,
>
    decreases items.len() - i,
{
    if i < 0 || i >= items.len() {
        st.found
    } else {
        scrape_fold(items, i + 1, scrape_step(st, items[i]))
    }
}

/// The text of the first fenced code block labelled `cargo` that holds any
/// text, among the events `items`.
pub open spec fn scraped(items: Seq<MarkdownItem>) -> Option<Seq<char>> {
    scrape_fold(items, 0, ScrapeState { inside: false, found: None })
}

/// `item` begins a fenced code block labelled `cargo`.
pub open spec fn begins_cargo_block(item: MarkdownItem) -> bool {
    item matches MarkdownItem::FencedCodeStart(info) && is_cargo_label(info)
}

/// Where no fenced code block is labelled `cargo`, nothing is gathered,
/// whatever else the events hold.
pub proof fn lemma_no_cargo_block(items: Seq<MarkdownItem>)
    requires
        forall|i: int| 0 <= i < items.len() ==> !begins_cargo_block(#[trigger] items[i]),
    ensures
        scraped(items) is None,
{
    lemma_nothing_gathered(items, 0);
}

/// From any event on, nothing is gathered where no fenced code block is
/// labelled `cargo`.
proof fn lemma_nothing_gathered(items: Seq<MarkdownItem>, i: int)
    requires
        0 <= i,
        forall|j: int| 0 <= j < items.len() ==> !begins_cargo_block(#[trigger] items[j]),
    ensures
        scrape_fold(items, i, ScrapeState { inside: false, found: None }) is None,
    decreases items.len() - i,
{
    if i < items.len() {
        assert(!begins_cargo_block(items[i]));
        assert(scrape_step(ScrapeState { inside: false, found: None }, items[i]) == (ScrapeState {
            inside: false,
            found: None,
        }));
        lemma_nothing_gathered(items, i + 1);
    }
}

/// A single fenced code block labelled `cargo` gives its text.
pub proof fn lemma_single_cargo_block(info: Seq<char>, text: Seq<char>)
    requires
        is_cargo_label(info),
    ensures
        scraped(
            seq![
                MarkdownItem::FencedCodeStart(info),
                MarkdownItem::Text(text),
                MarkdownItem::CodeBlockEnd,
            ],
        ) == Some(text),
{
    let items = seq![
        MarkdownItem::FencedCodeStart(info),
        MarkdownItem::Text(text),
        MarkdownItem::CodeBlockEnd,
    ];
    reveal_with_fuel(scrape_fold, 5);
    assert(items[0] == MarkdownItem::FencedCodeStart(info));
    assert(items[1] == MarkdownItem::Text(text));
    assert(items[2] == MarkdownItem::CodeBlockEnd);
}

/// The text that an executable `Option` of characters stands for.
pub open spec fn found_view(found: Option<Vec<char>>) -> Option<Seq<char>> {
    match found {
        Some(t) => Some(t@),
        None => None,
    }
}

/// `c`, or its lower-case form where `c` is an ASCII capital.
fn lower(c: char) -> (r: char)
    ensures
        r == ascii_lower(c),
{
    if 'A' <= c && c <= 'Z' {
        ((c as u8) + 32) as char
    } else {
        c
    }
}

/// Whether `info` reads `cargo` when the case of ASCII letters is ignored.
fn info_is_cargo(info: &str) -> (b: bool)
    ensures
        b == is_cargo_label(info@),
{
    let v = to_chars(info);
    v.len() == 5 && lower(v[0]) == 'c' && lower(v[1]) == 'a' && lower(v[2]) == 'r' && lower(v[3])
        == 'g' && lower(v[4]) == 'o'
}

/// Gathers, from the events of a parsed piece of Markdown, the text of the
/// first fenced code block labelled `cargo` that holds any text.
pub fn scrape_events(events: &Vec<MarkdownEvent>) -> (r: Option<String>)
    ensures
        match r {
            Some(text) => scraped(events_view(events@)) == Some(text@),
            None => scraped(events_view(events@)) is None,
        },
{
    let mut inside = false;
    let mut found: Option<Vec<char>> = None;
    let mut i: usize = 0;
    while i < events.len()
        invariant
            i <= events.len(),
            scraped(events_view(events@)) == scrape_fold(
                events_view(events@),
                i as int,
                ScrapeState { inside, found: found_view(found) },
            ),
        decreases events.len() - i,
    {
        proof {
            assert(events_view(events@)[i as int] == events@[i as int]@);
        }
        match &events[i] {
            MarkdownEvent::FencedCodeStart(info) => {
                if info_is_cargo(info.as_str()) && found.is_none() {
                    inside = true;
                }
            },
            MarkdownEvent::Text(text) => {
                if inside {
                    let mut t: Vec<char> = match found {
                        Some(t) => t,
                        None => Vec::new(),
                    };
                    proof {
                        assert(Seq::<char>::empty() + text@ =~= text@);
                    }
                    push_str(&mut t, text.as_str());
                    found = Some(t);
                }
            },
            MarkdownEvent::CodeBlockEnd => {
                inside = false;
            },
            MarkdownEvent::Other => {},
        }
        i += 1;
    }
    match found {
        Some(t) => Some(from_chars(&t)),
        None => None,
    }
}

/// Extracts the first fenced code block labelled `cargo` from a piece of
/// Markdown.
pub fn scrape_markdown_manifest(content: &str) -> (r: Option<String>)
    ensures
        match r {
            Some(text) => scraped(markdown_events(content@, ENABLE_TABLES, ENABLE_FOOTNOTES)) == Some(text@),
            None => scraped(markdown_events(content@, ENABLE_TABLES, ENABLE_FOOTNOTES)) is None,
        },
{
    let events = parse_markdown(content, ENABLE_TABLES, ENABLE_FOOTNOTES);
    scrape_events(&events)
}

} // verus!

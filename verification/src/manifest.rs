//! The manifest of the package that is generated for a script: the part
//! that the script itself holds, the part that every package gets, and the
//! two merged.

use crate::comment::{comment_text, extract_comment, CommentError, CommentFault};
use crate::input::{package_name_of, Input};
use crate::markdown::{
    markdown_events, scrape_markdown_manifest, scraped, ENABLE_FOOTNOTES, ENABLE_TABLES,
};
use crate::paths::{is_relative, join, path_is_relative, path_join, path_parent};
use crate::source::{program_text, script_source, strip_shebang, without_shebang};
use crate::table::{
    copied, entries_view, is_plain, lemma_entries_concat, lemma_entries_keys, parse_table,
    render_table, toml_parsed, toml_rendered, Node, NodeView, Table,
};
use crate::templates::{
    expand, expanded, expr_program, expr_source, file_source, lemma_expand_placeholder,
    lemma_expand_plain, lookup, name_run, placeholder_name_len, subs_view,
};
use crate::text::{concat, from_chars, option_view, owned, push_str, str_eq, to_chars};
use vstd::pervasive::unreached;
use vstd::prelude::*;

verus! {

/// The manifest that every package gets, before its placeholders are
/// expanded.
pub const DEFAULT_MANIFEST: &'static str = r##"
[package]
name = "#{name}"
version = "0.1.0"
edition = "2018"

[[bin]]
name = "#{bin_name}"
path = "#{file}.rs"

[profile.release]
strip = true
"##;

/// Name of the placeholder for the name of the package.
pub const MANI_NAME_SUB: &'static str = "name";

/// Name of the placeholder for the name of the program that is built.
pub const MANI_BIN_NAME_SUB: &'static str = "bin_name";

/// Name of the placeholder for the name of the source file, without its
/// extension.
pub const MANI_FILE_SUB: &'static str = "file";

/// Why no manifest could be made for a script.
#[derive(Debug, PartialEq, Eq)]
pub enum ManifestError {
    /// The documentation comment that the script begins with cannot be read.
    Comment(CommentError),
    /// The manifest that the script holds is no configuration document; the
    /// field is the parser's message, which `cause` hands out.
    EmbeddedManifest(String),
    /// The manifest that every package gets is no configuration document;
    /// the field is the parser's message.
    DefaultManifest(String),
    /// The script's manifest holds a table where the default holds a value
    /// that is no table.
    MergeConflict,
    /// The script's path names no directory that relative paths could be
    /// meant from.
    NoBasePath,
    /// The merged manifest cannot be written; the field is the writer's
    /// message.
    Render(String),
}

/// What a `ManifestError` stands for.
pub enum ManifestFault {
    Comment(CommentFault),
    EmbeddedManifest(Seq<char>),
    DefaultManifest(Seq<char>),
    MergeConflict,
    NoBasePath,
    Render(Seq<char>),
}

impl View for ManifestError {
    type V = ManifestFault;

    open spec fn view(&self) -> ManifestFault {
        match self {
            ManifestError::Comment(e) => ManifestFault::Comment(e@),
            ManifestError::EmbeddedManifest(m) => ManifestFault::EmbeddedManifest(m@),
            ManifestError::DefaultManifest(m) => ManifestFault::DefaultManifest(m@),
            ManifestError::MergeConflict => ManifestFault::MergeConflict,
            ManifestError::NoBasePath => ManifestFault::NoBasePath,
            ManifestError::Render(m) => ManifestFault::Render(m@),
        }
    }
}

impl ManifestFault {
    /// The fault in words.
    pub open spec fn message(self) -> Seq<char> {
        match self {
            ManifestFault::Comment(e) => "error slicing comment: "@ + e.message(),
            ManifestFault::EmbeddedManifest(_) => "could not parse embedded manifest"@,
            ManifestFault::DefaultManifest(_) => "could not parse default manifest"@,
            ManifestFault::MergeConflict =>
                "cannot merge manifests: cannot merge table and non-table values"@,
            ManifestFault::NoBasePath =>
                "couldn't get parent directory for file input base path"@,
            ManifestFault::Render(_) => "could not write manifest"@,
        }
    }

    /// What lies behind the fault, in the words of the parser or writer
    /// that met it, where it was one of these.
    pub open spec fn cause(self) -> Option<Seq<char>> {
        match self {
            ManifestFault::EmbeddedManifest(m) => Some(m),
            ManifestFault::DefaultManifest(m) => Some(m),
            ManifestFault::Render(m) => Some(m),
            _ => None,
        }
    }
}

impl ManifestError {
    /// The error in words.
    pub fn message(&self) -> (r: String)
        ensures
            r@ == self@.message(),
    {
        match self {
            ManifestError::Comment(e) => {
                let words = e.message();
                concat("error slicing comment: ", words.as_str())
            },
            ManifestError::EmbeddedManifest(_) => owned("could not parse embedded manifest"),
            ManifestError::DefaultManifest(_) => owned("could not parse default manifest"),
            ManifestError::MergeConflict => owned(
                "cannot merge manifests: cannot merge table and non-table values",
            ),
            ManifestError::NoBasePath => owned(
                "couldn't get parent directory for file input base path",
            ),
            ManifestError::Render(_) => owned("could not write manifest"),
        }
    }

    /// What lies behind the error: the message of the parser that could not
    /// read a manifest, or of the writer that could not write one. Other
    /// errors have nothing behind them.
    pub fn cause(&self) -> (r: Option<String>)
        ensures
            option_view(r) == self@.cause(),
    {
        match self {
            ManifestError::EmbeddedManifest(m) => Some(owned(m.as_str())),
            ManifestError::DefaultManifest(m) => Some(owned(m.as_str())),
            ManifestError::Render(m) => Some(owned(m.as_str())),
            _ => None,
        }
    }
}

/// The manifest that a script holds, as text.
#[derive(Debug, PartialEq, Eq)]
pub enum Manifest<'s> {
    /// A configuration fragment, borrowed.
    Toml(&'s str),
    /// A configuration fragment, owned.
    TomlOwned(String),
}

impl<'s> Manifest<'s> {
    /// The text of the fragment.
    pub open spec fn text(&self) -> Seq<char> {
        match self {
            Manifest::Toml(s) => s@,
            Manifest::TomlOwned(s) => s@,
        }
    }

    /// Reads the fragment as a configuration table.
    pub fn into_toml(self) -> (r: Result<Table, ManifestError>)
        ensures
            match r {
                Ok(t) => toml_parsed(self.text()) == Ok::<NodeView, Seq<char>>(
                    NodeView::Table(t@),
                ),
                Err(e) => e is EmbeddedManifest && toml_parsed(self.text()) == Err::<
                    NodeView,
                    Seq<char>,
                >(e->EmbeddedManifest_0@),
            },
    {
        let parsed = match &self {
            Manifest::Toml(s) => parse_table(s),
            Manifest::TomlOwned(s) => parse_table(s.as_str()),
        };
        match parsed {
            Ok(t) => Ok(t),
            Err(message) => Err(ManifestError::EmbeddedManifest(message)),
        }
    }
}

/// The manifest that the script `s` holds: the text of the first fenced
/// code block labelled `cargo` in the documentation comment that `s`, its
/// shebang line apart, begins with.
///
/// A script holds no manifest where it begins with anything else, a blank
/// line included, and where the comment holds no such block. A comment that
/// cannot be read is a fault.
pub open spec fn embedded_manifest(s: Seq<char>) -> Result<Option<Seq<char>>, CommentFault> {
    match comment_text(without_shebang(s)) {
        Ok(comment) => Ok(scraped(markdown_events(comment, ENABLE_TABLES, ENABLE_FOOTNOTES))),
        Err(CommentFault::NoDocComment) => Ok(None),
        Err(e) => Err(e),
    }
}

/// What a manifest that was found, or an error, stands for.
pub open spec fn found_view(r: Result<Option<(Manifest<'static>, &str)>, CommentError>) -> Result<
    Option<Seq<char>>,
    CommentFault,
> {
    match r {
        Ok(Some((manifest, _))) => Ok(Some(manifest.text())),
        Ok(None) => Ok(None),
        Err(e) => Err(e@),
    }
}

/// Locates a manifest embedded in a documentation comment at the beginning
/// of the script `s`. Gives the manifest and the script as it was.
///
/// There is none where the script begins with no such comment, and where
/// the comment holds no code block labelled `cargo`. Fails where the
/// comment cannot be read.
pub fn find_code_block_manifest(s: &str) -> (r: Result<
    Option<(Manifest<'static>, &str)>,
    CommentError,
>)
    ensures
        found_view(r) == embedded_manifest(s@),
        r matches Ok(Some((manifest, source))) ==> source@ == s@ && manifest is TomlOwned,
{
    let (rest, _) = strip_shebang(s);
    match extract_comment(rest) {
        Ok(comment) => match scrape_markdown_manifest(comment.as_str()) {
            Some(text) => Ok(Some((Manifest::TomlOwned(text), s))),
            None => Ok(None),
        },
        Err(CommentError::NoDocComment) => Ok(None),
        Err(e) => Err(e),
    }
}

/// Locates the manifest embedded in the script `s`. Gives the manifest and
/// the script as it was. Fails where the documentation comment that the
/// script begins with cannot be read.
pub fn find_embedded_manifest(s: &str) -> (r: Result<
    Option<(Manifest<'static>, &str)>,
    CommentError,
>)
    ensures
        found_view(r) == embedded_manifest(s@),
        r matches Ok(Some((manifest, source))) ==> source@ == s@ && manifest is TomlOwned,
{
    find_code_block_manifest(s)
}

/// A script that begins with a line feed holds no manifest, whatever
/// follows.
pub proof fn lemma_blank_line_hides_manifest(s: Seq<char>)
    requires
        s.len() > 0,
        s[0] == '\n',
    ensures
        embedded_manifest(s) == Ok::<Option<Seq<char>>, CommentFault>(None),
{
}

/// The value that the script's manifest and the default give to a key that
/// the script's manifest gives `v`: where both hold a table, the default's
/// table with the script's laid over it, and else `v`.
pub open spec fn merged_value(
    into: Map<Seq<char>, NodeView>,
    k: Seq<char>,
    v: NodeView,
) -> NodeView {
    match v {
        NodeView::Table(from_t) => if into.contains_key(k) && into[k] is Table {
            NodeView::Table(into[k]->Table_0.union_prefer_right(from_t))
        } else {
            v
        },
        _ => v,
    }
}

/// At the key `k`, `from` holds a table and `into` a value that is none.
pub open spec fn conflicts_at(
    into: Map<Seq<char>, NodeView>,
    from: Map<Seq<char>, NodeView>,
    k: Seq<char>,
) -> bool {
    from.contains_key(k) && from[k] is Table && into.contains_key(k) && !(into[k] is Table)
}

/// `from` cannot be merged into `into`.
pub open spec fn merge_conflict(
    into: Map<Seq<char>, NodeView>,
    from: Map<Seq<char>, NodeView>,
) -> bool {
    exists|k: Seq<char>| conflicts_at(into, from, k)
}

/// `from` merged into `into`. A key of `into` alone keeps its value. A key
/// of `from` gets the value of `from`, but for a key at which both hold a
/// table: there the table of `into` is kept, with the entries of the table
/// of `from` laid over it.
pub open spec fn merged(
    into: Map<Seq<char>, NodeView>,
    from: Map<Seq<char>, NodeView>,
) -> Map<Seq<char>, NodeView> {
    Map::new(
        |k: Seq<char>| into.contains_key(k) || from.contains_key(k),
        |k: Seq<char>|
            if from.contains_key(k) {
                merged_value(into, k, from[k])
            } else {
                into[k]
            },
    )
}

/// What has been added for the keys of the first `n` entries `es` of the
/// script's manifest `from`.
pub open spec fn additions(
    into: Map<Seq<char>, NodeView>,
    from: Map<Seq<char>, NodeView>,
    es: Seq<(String, Node)>,
    n: int,
) -> Map<Seq<char>, NodeView> {
    Map::new(
        |k: Seq<char>| entries_view(es, n).contains_key(k),
        |k: Seq<char>| merged_value(into, k, from[k]),
    )
}

/// The entries of `a` followed by those of `b`, all copied.
fn concat_entries(a: &Table, b: &Table) -> (r: Table)
    ensures
        r@ == a@.union_prefer_right(b@),
{
    let mut both = a.duplicate();
    let mut second = b.duplicate();
    proof {
        lemma_entries_concat(both.entries@, second.entries@, second.entries@.len() as int);
    }
    both.entries.append(&mut second.entries);
    both
}

/// Given two manifests, merges the second into the first.
///
/// Only tables at the top level are merged, and only one level deep;
/// everything else is replaced outright. Fails where the second manifest
/// holds a table under a key under which the first holds something else.
pub fn merge_manifest(into_t: Table, from_t: Table) -> (r: Result<Table, ManifestError>)
    ensures
        match r {
            Ok(t) => !merge_conflict(into_t@, from_t@) && t@ == merged(into_t@, from_t@),
            Err(e) => merge_conflict(into_t@, from_t@) && e == ManifestError::MergeConflict,
        },
{
    let mut added = Table::new();
    let mut i: usize = 0;
    let n = from_t.entries.len();
    proof {
        assert(added@ =~= additions(into_t@, from_t@, from_t.entries@, 0));
    }
    while i < n
        invariant
            i <= n,
            n == from_t.entries@.len(),
            added@ == additions(into_t@, from_t@, from_t.entries@, i as int),
            forall|k: Seq<char>| #[trigger]
                entries_view(from_t.entries@, i as int).contains_key(k) ==> !conflicts_at(
                    into_t@,
                    from_t@,
                    k,
                ),
        decreases n - i,
    {
        let key = from_t.entries[i].0.clone();
        proof {
            lemma_entries_keys(from_t.entries@, n as int, key@);
            assert(from_t.entries@[i as int].0@ == key@);
        }
        let value = match from_t.get(key.as_str()) {
            Some(v) => v,
            None => unreached(),
        };
        let merged_node = match value {
            Node::Table(from_inner) => match into_t.get(key.as_str()) {
                Some(Node::Table(into_inner)) => Node::Table(
                    concat_entries(into_inner, from_inner),
                ),
                Some(_) => {
                    proof {
                        assert(conflicts_at(into_t@, from_t@, key@));
                    }
                    return Err(ManifestError::MergeConflict);
                },
                None => value.duplicate(),
            },
            _ => value.duplicate(),
        };
        proof {
            assert(merged_node@ == merged_value(into_t@, key@, from_t@[key@]));
            assert(added@.insert(key@, merged_node@) =~= additions(
                into_t@,
                from_t@,
                from_t.entries@,
                i + 1,
            ));
        }
        added.insert(key, merged_node);
        i += 1;
    }
    let mut out = into_t;
    proof {
        lemma_entries_concat(out.entries@, added.entries@, added.entries@.len() as int);
        assert(into_t@.union_prefer_right(added@) =~= merged(into_t@, from_t@));
    }
    out.entries.append(&mut added.entries);
    Ok(out)
}

/// Merging a manifest whose keys the default does not have leaves every
/// entry of the default as it is, and adds those of the manifest as they
/// are.
pub proof fn lemma_merge_disjoint(
    into: Map<Seq<char>, NodeView>,
    from: Map<Seq<char>, NodeView>,
)
    requires
        forall|k: Seq<char>| from.contains_key(k) ==> !into.contains_key(k),
    ensures
        !merge_conflict(into, from),
        forall|k: Seq<char>| into.contains_key(k) ==> merged(into, from).contains_key(k) && merged(
            into,
            from,
        )[k] == into[k],
        forall|k: Seq<char>| from.contains_key(k) ==> merged(into, from).contains_key(k) && merged(
            into,
            from,
        )[k] == from[k],
{
}

/// Within a table that both manifests hold, the keys of the script's
/// manifest win, and the other keys of the default are kept.
pub proof fn lemma_merge_tables(
    into: Map<Seq<char>, NodeView>,
    from: Map<Seq<char>, NodeView>,
    k: Seq<char>,
    inner: Seq<char>,
)
    requires
        into.contains_key(k),
        from.contains_key(k),
        into[k] is Table,
        from[k] is Table,
    ensures
        merged(into, from)[k] is Table,
        from[k]->Table_0.contains_key(inner) ==> merged(into, from)[k]->Table_0[inner]
            == from[k]->Table_0[inner],
        !from[k]->Table_0.contains_key(inner) && into[k]->Table_0.contains_key(inner) ==> merged(
            into,
            from,
        )[k]->Table_0[inner] == into[k]->Table_0[inner],
{
}

/// A path as it stands in a relocated manifest: a relative path is joined
/// to the directory `base`, an absolute one is kept.
pub open spec fn fixed_string(s: Seq<char>, base: Seq<char>) -> Seq<char> {
    if path_is_relative(s) {
        path_join(base, s)
    } else {
        s
    }
}

/// `v` with the paths rewritten that stand at the place `path`.
///
/// A place is a list of keys that leads from `v` down through its tables;
/// the key `*` stands for every key of a table. A string that stands at the
/// place is rewritten by `fixed_string`; nothing else is changed.
pub open spec fn fixed(v: NodeView, path: Seq<Seq<char>>, base: Seq<char>) -> NodeView
    decreases path.len(),
{
    if path.len() == 0 {
        match v {
            NodeView::String(s) => NodeView::String(fixed_string(s, base)),
            _ => v,
        }
    } else {
        match v {
            NodeView::Table(m) => if path[0] == "*"@ {
                NodeView::Table(
                    Map::new(
                        |k: Seq<char>| m.contains_key(k),
                        |k: Seq<char>| fixed(m[k], path.drop_first(), base),
                    ),
                )
            } else if m.contains_key(path[0]) {
                NodeView::Table(m.insert(path[0], fixed(m[path[0]], path.drop_first(), base)))
            } else {
                v
            },
            _ => v,
        }
    }
}

/// The places of a manifest at which a path can stand.
pub open spec fn path_places() -> Seq<Seq<Seq<char>>> {
    seq![
        seq!["build-dependencies"@, "*"@, "path"@],
        seq!["dependencies"@, "*"@, "path"@],
        seq!["dev-dependencies"@, "*"@, "path"@],
        seq!["package"@, "build"@],
        seq!["target"@, "*"@, "dependencies"@, "*"@, "path"@],
    ]
}

/// `v` with the paths rewritten that stand at the first `n` of `places`.
pub open spec fn fixed_all(v: NodeView, places: Seq<Seq<Seq<char>>>, n: int, base: Seq<char>) -> NodeView
    decreases n,
{
    if n <= 0 || n > places.len() {
        v
    } else {
        fixed(fixed_all(v, places, n - 1, base), places[n - 1], base)
    }
}

/// The manifest `m` with every relative path made absolute that stands at
/// one of the places where a manifest can hold a path.
pub open spec fn relocated(m: Map<Seq<char>, NodeView>, base: Seq<char>) -> NodeView {
    fixed_all(NodeView::Table(m), path_places(), path_places().len() as int, base)
}

/// The texts of a list of keys.
pub open spec fn keys_view(keys: Seq<&'static str>) -> Seq<Seq<char>> {
    keys.map_values(|k: &'static str| k@)
}

/// The texts of a list of places.
pub open spec fn places_view(places: Seq<Vec<&'static str>>) -> Seq<Seq<Seq<char>>> {
    places.map_values(|p: Vec<&'static str>| keys_view(p@))
}

/// Rewriting paths turns a table into a table.
pub proof fn lemma_fixed_keeps_tables(v: NodeView, places: Seq<Seq<Seq<char>>>, n: int, base: Seq<char>)
    requires
        v is Table,
    ensures
        fixed_all(v, places, n, base) is Table,
    decreases n,
{
    if 0 < n <= places.len() {
        lemma_fixed_keeps_tables(v, places, n - 1, base);
    }
}

/// What the entries `es` stand for when the paths in each of their values
/// have been rewritten at the place `tail`.
pub open spec fn each_fixed(
    es: Seq<(String, Node)>,
    n: int,
    tail: Seq<Seq<char>>,
    base: Seq<char>,
) -> Map<Seq<char>, NodeView> {
    Map::new(
        |k: Seq<char>| entries_view(es, n).contains_key(k),
        |k: Seq<char>| fixed(entries_view(es, n)[k], tail, base),
    )
}

/// A copy of `node` with the paths rewritten that stand at the place that
/// `path` names from its key `from` on.
fn fix_node(node: &Node, path: &Vec<&'static str>, from: usize, base: &str) -> (r: Node)
    requires
        from <= path.len(),
    ensures
        r@ == fixed(node@, keys_view(path@).skip(from as int), base@),
    decreases path.len() - from,
{
    let ghost place = keys_view(path@).skip(from as int);
    if from == path.len() {
        proof {
            assert(place.len() == 0);
        }
        match node {
            Node::String(s) => {
                if is_relative(s.as_str()) {
                    Node::String(join(base, s.as_str()))
                } else {
                    node.duplicate()
                }
            },
            _ => node.duplicate(),
        }
    } else {
        let ghost tail = keys_view(path@).skip(from + 1);
        proof {
            assert(place.drop_first() =~= tail);
            assert(place[0] == path@[from as int]@);
        }
        match node {
            Node::Table(t) => {
                if str_eq(path[from], "*") {
                    let mut out = Table::new();
                    let mut i: usize = 0;
                    proof {
                        assert(out@ =~= each_fixed(t.entries@, 0, tail, base@));
                    }
                    while i < t.entries.len()
                        invariant
                            i <= t.entries.len(),
                            from < path.len(),
                            tail == keys_view(path@).skip(from + 1),
                            out@ == each_fixed(t.entries@, i as int, tail, base@),
                        decreases t.entries.len() - i,
                    {
                        let key = t.entries[i].0.clone();
                        let value = fix_node(&t.entries[i].1, path, from + 1, base);
                        proof {
                            assert(out@.insert(key@, value@) =~= each_fixed(
                                t.entries@,
                                i + 1,
                                tail,
                                base@,
                            ));
                        }
                        out.insert(key, value);
                        i += 1;
                    }
                    proof {
                        assert(node@ == NodeView::Table(t@));
                        assert(place.len() > 0);
                        assert(fixed(node@, place, base@) is Table);
                        assert(fixed(node@, place, base@)->Table_0 =~= out@);
                    }
                    Node::Table(out)
                } else {
                    match t.get(path[from]) {
                        Some(child) => {
                            let value = fix_node(child, path, from + 1, base);
                            let mut out = t.duplicate();
                            out.insert(owned(path[from]), value);
                            proof {
                                assert(node@ == NodeView::Table(t@));
                                assert(place.len() > 0);
                            }
                            Node::Table(out)
                        },
                        None => node.duplicate(),
                    }
                }
            },
            _ => node.duplicate(),
        }
    }
}

/// The places at which a manifest can hold a path.
fn manifest_path_places() -> (r: Vec<Vec<&'static str>>)
    ensures
        places_view(r@) == path_places(),
{
    let a: Vec<&'static str> = vec!["build-dependencies", "*", "path"];
    let b: Vec<&'static str> = vec!["dependencies", "*", "path"];
    let c: Vec<&'static str> = vec!["dev-dependencies", "*", "path"];
    let d: Vec<&'static str> = vec!["package", "build"];
    let e: Vec<&'static str> = vec!["target", "*", "dependencies", "*", "path"];
    proof {
        assert(keys_view(a@) =~= path_places()[0]);
        assert(keys_view(b@) =~= path_places()[1]);
        assert(keys_view(c@) =~= path_places()[2]);
        assert(keys_view(d@) =~= path_places()[3]);
        assert(keys_view(e@) =~= path_places()[4]);
    }
    let r = vec![a, b, c, d, e];
    proof {
        assert(places_view(r@) =~= path_places());
    }
    r
}

/// Given a manifest, rewrites relative paths to absolute ones, so that the
/// manifest can be kept somewhere else than the script.
///
/// The paths are those of the dependencies of every kind, of the build
/// script, and of the dependencies of every target. A relative path is
/// joined to `base`; an absolute path is left as it is.
pub fn fix_manifest_paths(mani: Table, base: &str) -> (r: Table)
    ensures
        NodeView::Table(r@) == relocated(mani@, base@),
{
    let places = manifest_path_places();
    let mut node = Node::Table(mani);
    let mut i: usize = 0;
    while i < places.len()
        invariant
            i <= places.len(),
            places_view(places@) == path_places(),
            node@ == fixed_all(NodeView::Table(mani@), path_places(), i as int, base@),
        decreases places.len() - i,
    {
        proof {
            assert(places_view(places@)[i as int] == keys_view(places@[i as int]@));
            assert(keys_view(places@[i as int]@).skip(0) =~= keys_view(places@[i as int]@));
        }
        node = fix_node(&node, &places[i], 0, base);
        i += 1;
    }
    proof {
        lemma_fixed_keeps_tables(
            NodeView::Table(mani@),
            path_places(),
            path_places().len() as int,
            base@,
        );
    }
    match node {
        Node::Table(t) => t,
        _ => unreached(),
    }
}

/// An absolute path is left as it is wherever it stands.
pub proof fn lemma_absolute_paths_stay(s: Seq<char>, base: Seq<char>)
    requires
        !path_is_relative(s),
    ensures
        fixed(NodeView::String(s), Seq::empty(), base) == NodeView::String(s),
{
}

/// Merging plain tables gives a plain table.
pub proof fn lemma_merged_is_plain(
    into: Map<Seq<char>, NodeView>,
    from: Map<Seq<char>, NodeView>,
)
    requires
        is_plain(NodeView::Table(into)),
        is_plain(NodeView::Table(from)),
    ensures
        is_plain(NodeView::Table(merged(into, from))),
{
    let m = merged(into, from);
    assert(m.dom() =~= into.dom().union(from.dom()));
    assert forall|k: Seq<char>| m.contains_key(k) implies is_plain(#[trigger] m[k]) by {
        if from.contains_key(k) {
            assert(is_plain(from[k]));
            if from[k] is Table && into.contains_key(k) && into[k] is Table {
                assert(is_plain(into[k]));
                let inner = into[k]->Table_0.union_prefer_right(from[k]->Table_0);
                assert(inner.dom() =~= into[k]->Table_0.dom().union(from[k]->Table_0.dom()));
                assert forall|j: Seq<char>| inner.contains_key(j) implies is_plain(
                    #[trigger] inner[j],
                ) by {
                    if from[k]->Table_0.contains_key(j) {
                        assert(is_plain(from[k]->Table_0[j]));
                    } else {
                        assert(is_plain(into[k]->Table_0[j]));
                    }
                }
            }
        } else {
            assert(is_plain(into[k]));
        }
    }
}

/// Rewriting the paths of a plain value gives a plain value.
pub proof fn lemma_fixed_is_plain(v: NodeView, path: Seq<Seq<char>>, base: Seq<char>)
    requires
        is_plain(v),
    ensures
        is_plain(fixed(v, path, base)),
    decreases path.len(),
{
    if path.len() > 0 {
        match v {
            NodeView::Table(m) => {
                let tail = path.drop_first();
                if path[0] == "*"@ {
                    let out = Map::new(
                        |k: Seq<char>| m.contains_key(k),
                        |k: Seq<char>| fixed(m[k], tail, base),
                    );
                    assert(out.dom() =~= m.dom());
                    assert forall|k: Seq<char>| out.contains_key(k) implies is_plain(
                        #[trigger] out[k],
                    ) by {
                        assert(is_plain(m[k]));
                        lemma_fixed_is_plain(m[k], tail, base);
                    }
                    assert(fixed(v, path, base)->Table_0 =~= out);
                } else if m.contains_key(path[0]) {
                    assert(is_plain(m[path[0]]));
                    lemma_fixed_is_plain(m[path[0]], tail, base);
                    let out = m.insert(path[0], fixed(m[path[0]], tail, base));
                    assert forall|k: Seq<char>| out.contains_key(k) implies is_plain(
                        #[trigger] out[k],
                    ) by {
                        if k != path[0] {
                            assert(is_plain(m[k]));
                        }
                    }
                }
            },
            _ => {},
        }
    }
}

/// A plain manifest stays plain when its paths are rewritten.
pub proof fn lemma_fixed_all_is_plain(
    v: NodeView,
    places: Seq<Seq<Seq<char>>>,
    n: int,
    base: Seq<char>,
)
    requires
        is_plain(v),
    ensures
        is_plain(fixed_all(v, places, n, base)),
    decreases n,
{
    if 0 < n <= places.len() {
        lemma_fixed_all_is_plain(v, places, n - 1, base);
        lemma_fixed_is_plain(fixed_all(v, places, n - 1, base), places[n - 1], base);
    }
}

/// Where the default manifest and the manifest of the script are plain,
/// what is written is the one merged into the other, with its paths
/// rewritten, and nothing else.
pub proof fn lemma_plain_manifest_is_written(
    default: Map<Seq<char>, NodeView>,
    part: Map<Seq<char>, NodeView>,
    base: Seq<char>,
)
    requires
        is_plain(NodeView::Table(default)),
        is_plain(NodeView::Table(part)),
    ensures
        copied(relocated(merged(default, part), base)) == relocated(merged(default, part), base),
{
    lemma_merged_is_plain(default, part);
    lemma_fixed_all_is_plain(
        NodeView::Table(merged(default, part)),
        path_places(),
        path_places().len() as int,
        base,
    );
}

/// The name of the program that is built for a package called `package`
/// whose input has the identity `id`.
pub open spec fn bin_name_of(package: Seq<char>, id: Seq<char>) -> Seq<char> {
    package + seq!['_'] + id
}

/// What the placeholders of the default manifest stand for, for an input
/// called `name` with the identity `id`.
pub open spec fn default_subs(name: Seq<char>, id: Seq<char>) -> Seq<(Seq<char>, Seq<char>)> {
    seq![
        (MANI_NAME_SUB@, package_name_of(name)),
        (MANI_BIN_NAME_SUB@, bin_name_of(package_name_of(name), id)),
        (MANI_FILE_SUB@, name),
    ]
}

/// The text of the default manifest for an input called `name` with the
/// identity `id`.
pub open spec fn default_manifest_text(name: Seq<char>, id: Seq<char>) -> Seq<char> {
    "\n[package]\nname = \""@ + package_name_of(name)
        + "\"\nversion = \"0.1.0\"\nedition = \"2018\"\n\n[[bin]]\nname = \""@ + bin_name_of(
        package_name_of(name),
        id,
    ) + "\"\npath = \""@ + name + ".rs\"\n\n[profile.release]\nstrip = true\n"@
}

/// The default manifest has a place for the name of the package, for the
/// name of the program and for the name of the source file, and for nothing
/// else: it can always be expanded, and its text is known.
pub proof fn lemma_default_manifest_text(name: Seq<char>, id: Seq<char>)
    ensures
        expanded(DEFAULT_MANIFEST@, default_subs(name, id)) == Ok::<Seq<char>, Seq<char>>(
            default_manifest_text(name, id),
        ),
{
    reveal_strlit(
        r##"
[package]
name = "#{name}"
version = "0.1.0"
edition = "2018"

[[bin]]
name = "#{bin_name}"
path = "#{file}.rs"

[profile.release]
strip = true
"##,
    );
    reveal_strlit("name");
    reveal_strlit("bin_name");
    reveal_strlit("file");
    reveal_strlit("\n[package]\nname = \"");
    reveal_strlit("\"\nversion = \"0.1.0\"\nedition = \"2018\"\n\n[[bin]]\nname = \"");
    reveal_strlit("\"\npath = \"");
    reveal_strlit(".rs\"\n\n[profile.release]\nstrip = true\n");
    let src = DEFAULT_MANIFEST@;
    let subs = default_subs(name, id);
    let package = package_name_of(name);
    let program = bin_name_of(package, id);
    assert(src.len() == 145);
    reveal_with_fuel(name_run, 10);
    reveal_with_fuel(lookup, 4);
    assert(MANI_NAME_SUB@ != MANI_BIN_NAME_SUB@) by {
        assert(MANI_NAME_SUB@[0] == 'n');
        assert(MANI_BIN_NAME_SUB@[0] == 'b');
    }
    assert(MANI_FILE_SUB@ != MANI_NAME_SUB@) by {
        assert(MANI_FILE_SUB@[0] == 'f');
        assert(MANI_NAME_SUB@[0] == 'n');
    }
    assert(MANI_FILE_SUB@ != MANI_BIN_NAME_SUB@) by {
        assert(MANI_FILE_SUB@[0] == 'f');
        assert(MANI_BIN_NAME_SUB@[0] == 'b');
    }

    let e = Seq::<char>::empty();
    let a = e + src.subrange(0, 19);
    lemma_expand_plain(src, subs, 0, 19, e);
    assert(src.subrange(21, 25) =~= MANI_NAME_SUB@);
    assert(placeholder_name_len(src, 19) == Some(4nat));
    lemma_expand_placeholder(src, subs, 19, 4, a);
    let b = a + package;
    let c = b + src.subrange(26, 80);
    lemma_expand_plain(src, subs, 26, 80, b);
    assert(src.subrange(82, 90) =~= MANI_BIN_NAME_SUB@);
    assert(placeholder_name_len(src, 80) == Some(8nat));
    lemma_expand_placeholder(src, subs, 80, 8, c);
    let d = c + program;
    let f = d + src.subrange(91, 101);
    lemma_expand_plain(src, subs, 91, 101, d);
    assert(src.subrange(103, 107) =~= MANI_FILE_SUB@);
    assert(placeholder_name_len(src, 101) == Some(4nat));
    lemma_expand_placeholder(src, subs, 101, 4, f);
    let g = f + name;
    lemma_expand_plain(src, subs, 108, 145, g);
    assert(g + src.subrange(108, 145) =~= default_manifest_text(name, id));
}

/// The table that `v` is, or an empty one.
pub open spec fn table_of(v: NodeView) -> Map<Seq<char>, NodeView> {
    match v {
        NodeView::Table(m) => m,
        _ => Map::empty(),
    }
}

/// The manifest that the package of an input called `name` with the
/// identity `id` gets: the text of the default manifest, read as a table.
pub open spec fn default_manifest_of(name: Seq<char>, id: Seq<char>) -> Result<
    Map<Seq<char>, NodeView>,
    ManifestFault,
> {
    match toml_parsed(default_manifest_text(name, id)) {
        Ok(v) => Ok(table_of(v)),
        Err(message) => Err(ManifestFault::DefaultManifest(message)),
    }
}

/// What a table or an error stands for.
pub open spec fn table_result(r: Result<Table, ManifestError>) -> Result<
    Map<Seq<char>, NodeView>,
    ManifestFault,
> {
    match r {
        Ok(t) => Ok(t@),
        Err(e) => Err(e@),
    }
}

/// What two texts or an error stand for.
pub open spec fn texts_result(r: Result<(String, String), ManifestError>) -> Result<
    (Seq<char>, Seq<char>),
    ManifestFault,
> {
    match r {
        Ok(p) => Ok((p.0@, p.1@)),
        Err(e) => Err(e@),
    }
}

/// Generates the default manifest for `input`, whose identity is
/// `input_id`.
///
/// The package is named by the package name of the input, the program by
/// that name, `_` and the identity, and the source file by the name of the
/// input. Fails where the name of the input makes the text no
/// configuration document.
pub fn default_manifest(input: &Input, input_id: &str) -> (r: Result<Table, ManifestError>)
    ensures
        table_result(r) == default_manifest_of(input.name(), input_id@),
{
    let pkg_name = input.package_name();
    let mut bin_name = to_chars(pkg_name.as_str());
    bin_name.push('_');
    push_str(&mut bin_name, input_id);
    let mut subs: Vec<(String, String)> = Vec::new();
    subs.push((owned(MANI_NAME_SUB), pkg_name));
    subs.push((owned(MANI_BIN_NAME_SUB), from_chars(&bin_name)));
    subs.push((owned(MANI_FILE_SUB), owned(input.safe_name())));
    proof {
        assert(bin_name@ =~= bin_name_of(package_name_of(input.name()), input_id@));
        assert(subs_view(subs@) =~= default_subs(input.name(), input_id@));
        lemma_default_manifest_text(input.name(), input_id@);
    }
    match expand(DEFAULT_MANIFEST, &subs) {
        Ok(text) => match parse_table(text.as_str()) {
            Ok(t) => Ok(t),
            Err(message) => Err(ManifestError::DefaultManifest(message)),
        },
        Err(_) => unreached(),
    }
}

/// The text of the manifest `found` that a script holds: empty where it
/// holds none.
pub open spec fn manifest_text(found: Option<Seq<char>>) -> Seq<char> {
    match found {
        Some(text) => text,
        None => Seq::empty(),
    }
}

/// The text of the manifest that `input` holds, and the source of its
/// program.
///
/// A file holds its manifest itself, and the source of its program is its
/// program text; a file whose documentation comment cannot be read has
/// neither. An expression holds no manifest, and the source of its program
/// is the program that evaluates it.
pub open spec fn parts_of(input: Input) -> Result<(Seq<char>, Seq<char>), ManifestFault> {
    match input {
        Input::File(_, _, content) => match embedded_manifest(content@) {
            Ok(found) => Ok((manifest_text(found), program_text(content@))),
            Err(e) => Err(ManifestFault::Comment(e)),
        },
        Input::Expr(content) => Ok((Seq::empty(), expr_program(content@))),
    }
}

/// The directory that relative paths in `input` are meant from.
pub open spec fn base_dir(input: Input, current_dir: Seq<char>) -> Option<Seq<char>> {
    match input {
        Input::File(_, path, _) => path_parent(path@),
        Input::Expr(_) => Some(current_dir),
    }
}

/// The manifest of the package for `input`, as text, and the source of its
/// program; or what stands in the way, the first of these: the comment that
/// the input begins with, the manifest that it holds, the default manifest,
/// a conflict between the two, the lack of a base directory, the writing of
/// the result.
pub open spec fn split(input: Input, id: Seq<char>, current_dir: Seq<char>) -> Result<
    (Seq<char>, Seq<char>),
    ManifestFault,
> {
    match parts_of(input) {
        Err(e) => Err(e),
        Ok((mani_text, source)) => match toml_parsed(mani_text) {
            Err(message) => Err(ManifestFault::EmbeddedManifest(message)),
            Ok(part) => match default_manifest_of(input.name(), id) {
                Err(e) => Err(e),
                Ok(default) => if merge_conflict(default, table_of(part)) {
                    Err(ManifestFault::MergeConflict)
                } else {
                    match base_dir(input, current_dir) {
                        None => Err(ManifestFault::NoBasePath),
                        Some(base) => match toml_rendered(
                            copied(relocated(merged(default, table_of(part)), base)),
                        ) {
                            Ok(text) => Ok((text, source)),
                            Err(message) => Err(ManifestFault::Render(message)),
                        },
                    }
                },
            },
        },
    }
}

/// The text of the manifest that the script `content` holds.
fn embedded_text(content: &str) -> (r: Result<String, CommentError>)
    ensures
        match r {
            Ok(text) => embedded_manifest(content@) is Ok && text@ == manifest_text(
                embedded_manifest(content@)->Ok_0,
            ),
            Err(e) => embedded_manifest(content@) == Err::<Option<Seq<char>>, CommentFault>(e@),
        },
{
    match find_embedded_manifest(content) {
        Ok(Some((Manifest::TomlOwned(text), _))) => Ok(text),
        Ok(Some((Manifest::Toml(text), _))) => Ok(owned(text)),
        Ok(None) => Ok(String::new()),
        Err(e) => Err(e),
    }
}

/// Splits `input` into the manifest of its package and the source of its
/// program.
///
/// `input_id` is the identity of the input, and `current_dir` the directory
/// that relative paths of an expression are meant from. The manifest is the
/// default manifest with the manifest that the input holds merged into it,
/// every relative path in it made absolute.
pub fn split_input(input: &Input, input_id: &str, current_dir: &str) -> (r: Result<
    (String, String),
    ManifestError,
>)
    ensures
        texts_result(r) == split(*input, input_id@, current_dir@),
{
    let (mani_text, source) = match input {
        Input::File(_, _, content) => {
            let mani_text = match embedded_text(content.as_str()) {
                Ok(text) => text,
                Err(e) => {
                    return Err(ManifestError::Comment(e));
                },
            };
            let program = script_source(content.as_str());
            (mani_text, file_source(program.as_str()))
        },
        Input::Expr(content) => (String::new(), expr_source(content.as_str())),
    };
    let part = match (Manifest::TomlOwned(mani_text)).into_toml() {
        Ok(t) => t,
        Err(e) => {
            return Err(e);
        },
    };
    let default = match default_manifest(input, input_id) {
        Ok(t) => t,
        Err(e) => {
            return Err(e);
        },
    };
    let mani = match merge_manifest(default, part) {
        Ok(t) => t,
        Err(e) => {
            return Err(e);
        },
    };
    let base = match input.base_path(current_dir) {
        Some(dir) => dir,
        None => {
            return Err(ManifestError::NoBasePath);
        },
    };
    let mani = fix_manifest_paths(mani, base.as_str());
    match render_table(&mani) {
        Ok(text) => Ok((text, source)),
        Err(message) => Err(ManifestError::Render(message)),
    }
}

} // verus!

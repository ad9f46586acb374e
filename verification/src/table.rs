//! Configuration values and tables.

use crate::text::str_eq;
use vstd::pervasive::unreached;
use vstd::prelude::*;

verus! {

/// A node of a configuration: a value, an array or a table.
#[derive(Debug, PartialEq, Eq)]
pub enum Node {
    String(String),
    Integer(i64),
    /// A floating-point number, held as the text that stands for it in a
    /// configuration document.
    Float(String),
    Boolean(bool),
    /// A date or time, as it is written.
    Datetime(String),
    Array(Vec<Node>),
    Table(Table),
}

/// A table: keys with their values. Where a key stands more than once, its
/// last entry counts.
#[derive(Debug, PartialEq, Eq)]
pub struct Table {
    pub entries: Vec<(String, Node)>,
}

/// What a `Node` stands for.
pub enum NodeView {
    String(Seq<char>),
    Integer(i64),
    Float(Seq<char>),
    Boolean(bool),
    Datetime(Seq<char>),
    Array(Seq<NodeView>),
    Table(Map<Seq<char>, NodeView>),
}

/// What the first `n` of the values `vs` stand for.
pub open spec fn array_view(vs: Seq<Node>, n: int) -> Seq<NodeView>
    decreases vs, n,
{
    if n <= 0 || n > vs.len() {
        Seq::empty()
    } else {
        array_view(vs, n - 1).push(node_view(vs[n - 1]))
    }
}

/// What the first `n` of the entries `es` stand for.
pub open spec fn entries_view(es: Seq<(String, Node)>, n: int) -> Map<Seq<char>, NodeView>
    decreases es, n,
{
    if n <= 0 || n > es.len() {
        Map::empty()
    } else {
        entries_view(es, n - 1).insert(es[n - 1].0@, node_view(es[n - 1].1))
    }
}

/// What `v` stands for.
pub open spec fn node_view(v: Node) -> NodeView
    decreases v, 0int,
{
    match v {
        Node::String(s) => NodeView::String(s@),
        Node::Integer(i) => NodeView::Integer(i),
        Node::Float(s) => NodeView::Float(s@),
        Node::Boolean(b) => NodeView::Boolean(b),
        Node::Datetime(s) => NodeView::Datetime(s@),
        Node::Array(vs) => NodeView::Array(array_view(vs@, vs@.len() as int)),
        Node::Table(t) => NodeView::Table(entries_view(t.entries@, t.entries@.len() as int)),
    }
}

impl View for Node {
    type V = NodeView;

    open spec fn view(&self) -> NodeView {
        node_view(*self)
    }
}

impl View for Table {
    type V = Map<Seq<char>, NodeView>;

    open spec fn view(&self) -> Map<Seq<char>, NodeView> {
        entries_view(self.entries@, self.entries@.len() as int)
    }
}

/// The entries of a table stand for the keys that they name.
pub proof fn lemma_entries_keys(es: Seq<(String, Node)>, n: int, k: Seq<char>)
    requires
        0 <= n <= es.len(),
    ensures
        entries_view(es, n).contains_key(k) <==> exists|j: int| 0 <= j < n && #[trigger] es[j].0@ == k,
    decreases n,
{
    if n > 0 {
        lemma_entries_keys(es, n - 1, k);
        if es[n - 1].0@ == k {
        } else {
            if entries_view(es, n).contains_key(k) {
                let j = choose|j: int| 0 <= j < n - 1 && #[trigger] es[j].0@ == k;
                assert(es[j].0@ == k);
            }
        }
    }
}

/// Entries that follow each other stand for the first table with the second
/// laid over it.
pub proof fn lemma_entries_concat(a: Seq<(String, Node)>, b: Seq<(String, Node)>, n: int)
    requires
        0 <= n <= b.len(),
    ensures
        entries_view(a + b, a.len() + n) == entries_view(a, a.len() as int).union_prefer_right(
            entries_view(b, n),
        ),
    decreases n,
{
    if n == 0 {
        lemma_entries_prefix(a, b, a.len() as int);
        assert(entries_view(a, a.len() as int).union_prefer_right(Map::empty()) =~= entries_view(
            a,
            a.len() as int,
        ));
    } else {
        lemma_entries_concat(a, b, n - 1);
        assert((a + b)[a.len() + n - 1] == b[n - 1]);
        assert(entries_view(a, a.len() as int).union_prefer_right(entries_view(b, n - 1)).insert(
            b[n - 1].0@,
            node_view(b[n - 1].1),
        ) =~= entries_view(a, a.len() as int).union_prefer_right(entries_view(b, n)));
    }
}

/// What the first entries stand for does not depend on those that follow.
pub proof fn lemma_entries_prefix(a: Seq<(String, Node)>, b: Seq<(String, Node)>, n: int)
    requires
        0 <= n <= a.len(),
    ensures
        entries_view(a + b, n) == entries_view(a, n),
    decreases n,
{
    if n > 0 {
        lemma_entries_prefix(a, b, n - 1);
        assert((a + b)[n - 1] == a[n - 1]);
    }
}

/// A copy of the values `vs`.
fn duplicate_array(vs: &Vec<Node>) -> (r: Vec<Node>)
    ensures
        array_view(r@, r@.len() as int) == array_view(vs@, vs@.len() as int),
        r@.len() == vs@.len(),
    decreases vs, 1int,
{
    let mut out: Vec<Node> = Vec::new();
    let mut i: usize = 0;
    while i < vs.len()
        invariant
            i <= vs.len(),
            out@.len() == i,
            array_view(out@, i as int) == array_view(vs@, i as int),
        decreases vs.len() - i,
    {
        let copy = vs[i].duplicate();
        proof {
            lemma_array_prefix(out@, seq![copy], i as int);
            assert(out@.push(copy) =~= out@ + seq![copy]);
        }
        out.push(copy);
        i += 1;
    }
    out
}

/// A copy of the entries `es`.
fn duplicate_entries(es: &Vec<(String, Node)>) -> (r: Vec<(String, Node)>)
    ensures
        entries_view(r@, r@.len() as int) == entries_view(es@, es@.len() as int),
        r@.len() == es@.len(),
    decreases es, 1int,
{
    let mut out: Vec<(String, Node)> = Vec::new();
    let mut i: usize = 0;
    while i < es.len()
        invariant
            i <= es.len(),
            out@.len() == i,
            entries_view(out@, i as int) == entries_view(es@, i as int),
        decreases es.len() - i,
    {
        let key = es[i].0.clone();
        let copy = es[i].1.duplicate();
        proof {
            lemma_entries_prefix(out@, seq![(key, copy)], i as int);
            assert(out@.push((key, copy)) =~= out@ + seq![(key, copy)]);
        }
        out.push((key, copy));
        i += 1;
    }
    out
}

/// What the first values stand for does not depend on those that follow.
pub proof fn lemma_array_prefix(a: Seq<Node>, b: Seq<Node>, n: int)
    requires
        0 <= n <= a.len(),
    ensures
        array_view(a + b, n) == array_view(a, n),
    decreases n,
{
    if n > 0 {
        lemma_array_prefix(a, b, n - 1);
        assert((a + b)[n - 1] == a[n - 1]);
    }
}

impl Node {
    /// A copy of this node and of all that it holds.
    pub fn duplicate(&self) -> (r: Node)
        ensures
            r@ == self@,
        decreases self, 0int,
    {
        match self {
            Node::String(s) => Node::String(s.clone()),
            Node::Integer(i) => Node::Integer(*i),
            Node::Float(s) => Node::Float(s.clone()),
            Node::Boolean(b) => Node::Boolean(*b),
            Node::Datetime(s) => Node::Datetime(s.clone()),
            Node::Array(vs) => Node::Array(duplicate_array(vs)),
            Node::Table(t) => Node::Table(Table { entries: duplicate_entries(&t.entries) }),
        }
    }
}

impl Table {
    /// A table without entries.
    pub fn new() -> (r: Table)
        ensures
            r@ == Map::<Seq<char>, NodeView>::empty(),
    {
        Table { entries: Vec::new() }
    }

    /// A copy of this table and of all that it holds.
    pub fn duplicate(&self) -> (r: Table)
        ensures
            r@ == self@,
    {
        Table { entries: duplicate_entries(&self.entries) }
    }

    /// The value that `key` has in this table.
    pub fn get(&self, key: &str) -> (r: Option<&Node>)
        ensures
            match r {
                Some(v) => self@.contains_key(key@) && self@[key@] == v@,
                None => !self@.contains_key(key@),
            },
    {
                let mut i: usize = self.entries.len();
        while i > 0
            invariant
                i <= self.entries.len(),
                self@.contains_key(key@) <==> entries_view(self.entries@, i as int).contains_key(
                    key@,
                ),
                self@.contains_key(key@) ==> self@[key@] == entries_view(self.entries@, i as int)[key@],
            decreases i,
        {
            i -= 1;
            if str_eq(self.entries[i].0.as_str(), key) {
                return Some(&self.entries[i].1);
            }
        }
        None
    }

    /// Gives `key` the value `value`, whether the key had one before or not.
    pub fn insert(&mut self, key: String, value: Node)
        ensures
            final(self)@ == old(self)@.insert(key@, value@),
    {
        proof {
            lemma_entries_prefix(self.entries@, seq![(key, value)], self.entries@.len() as int);
            assert(self.entries@.push((key, value)) =~= self.entries@ + seq![(key, value)]);
        }
        self.entries.push((key, value));
    }
}

/// A value as the TOML library holds it.
#[verifier::external_type_specification]
#[verifier::external_body]
pub struct ExTomlValue(toml::Value);

/// What a value of the TOML library stands for: a string by its text, a
/// floating-point number, a date or a time by the text that the library
/// writes for it, a table by its keys.
pub uninterp spec fn toml_model(v: toml::Value) -> NodeView;

/// What the TOML value stands for that a node is copied into, where the
/// node holds a floating-point number, a date or a time. The copy depends
/// on nothing but what the node stands for.
pub uninterp spec fn toml_copy(node: NodeView) -> NodeView;

/// `v` holds no floating-point number, no date and no time, however deep.
pub open spec fn is_plain(v: NodeView) -> bool
    decreases v,
{
    match v {
        NodeView::String(_) => true,
        NodeView::Integer(_) => true,
        NodeView::Boolean(_) => true,
        NodeView::Float(_) => false,
        NodeView::Datetime(_) => false,
        NodeView::Array(vs) => forall|i: int| 0 <= i < vs.len() ==> is_plain(#[trigger] vs[i]),
        NodeView::Table(m) => m.dom().finite() && forall|k: Seq<char>|
            m.contains_key(k) ==> is_plain(#[trigger] m[k]),
    }
}

/// What the TOML value stands for that a node is copied into: the node
/// itself, where it is plain.
pub open spec fn copied(node: NodeView) -> NodeView {
    if is_plain(node) {
        node
    } else {
        toml_copy(node)
    }
}

/// What `toml::from_str` makes of the document `text`: its table, or the
/// text of its error.
pub uninterp spec fn toml_parsed(text: Seq<char>) -> Result<NodeView, Seq<char>>;

/// What `toml::to_string` writes for a value, or the text of its error.
pub uninterp spec fn toml_rendered(v: NodeView) -> Result<Seq<char>, Seq<char>>;

/// `toml::from_str`, reading `text` as a table. The parser reads nothing but
/// the text. An error is kept as the text that it displays.
#[verifier::external_body]
fn toml_from_str(text: &str) -> (r: Result<toml::Value, String>)
    ensures
        match r {
            Ok(v) => toml_parsed(text@) == Ok::<NodeView, Seq<char>>(toml_model(v)) && toml_model(
                v,
            ) is Table,
            Err(e) => toml_parsed(text@) == Err::<NodeView, Seq<char>>(e@),
        },
{
    toml::from_str::<toml::value::Table>(text).map(toml::Value::Table).map_err(|e| e.to_string())
}

/// `toml::to_string` on a value. What it writes depends on nothing but the
/// value. An error is kept as the text that it displays.
#[verifier::external_body]
fn toml_to_string(v: &toml::Value) -> (r: Result<String, String>)
    ensures
        match r {
            Ok(text) => toml_rendered(toml_model(*v)) == Ok::<Seq<char>, Seq<char>>(text@),
            Err(e) => toml_rendered(toml_model(*v)) == Err::<Seq<char>, Seq<char>>(e@),
        },
{
    toml::to_string(v).map_err(|e| e.to_string())
}

/// Copies a value of the TOML library into a `Node`, variant by variant. A
/// floating-point number is kept as the text that `to_string` writes for
/// the value, a date or time as the text that its own `to_string` writes.
#[verifier::external_body]
fn node_from_toml(v: &toml::Value) -> (r: Node)
    ensures
        r@ == toml_model(*v),
{
    match v {
        toml::Value::String(s) => Node::String(s.clone()),
        toml::Value::Integer(i) => Node::Integer(*i),
        toml::Value::Float(_) => Node::Float(v.to_string()),
        toml::Value::Boolean(b) => Node::Boolean(*b),
        toml::Value::Datetime(d) => Node::Datetime(d.to_string()),
        toml::Value::Array(a) => Node::Array(a.iter().map(node_from_toml).collect()),
        toml::Value::Table(t) => Node::Table(
            Table { entries: t.iter().map(|(k, x)| (k.clone(), node_from_toml(x))).collect() },
        ),
    }
}

/// Copies a `Node` into a value of the TOML library, variant by variant. A
/// string, an integer and a truth value are copied as they are, an array
/// item by item. A floating-point number or a date is read from its text,
/// and kept as a string where it cannot be read.
#[verifier::external_body]
fn node_to_toml(node: &Node) -> (r: toml::Value)
    ensures
        is_plain(node@) ==> toml_model(r) == node@,
        !is_plain(node@) ==> toml_model(r) == toml_copy(node@),
{
    match node {
        Node::String(s) => toml::Value::String(s.clone()),
        Node::Integer(i) => toml::Value::Integer(*i),
        Node::Float(s) => s.parse().map_or(toml::Value::String(s.clone()), toml::Value::Float),
        Node::Boolean(b) => toml::Value::Boolean(*b),
        Node::Datetime(s) => s.parse().map_or(toml::Value::String(s.clone()), toml::Value::Datetime),
        Node::Array(a) => toml::Value::Array(a.iter().map(node_to_toml).collect()),
        Node::Table(t) => table_to_toml(t),
    }
}

/// Copies a `Table` into a table of the TOML library. The entries are
/// inserted in their order, so that the last entry of a key counts, each
/// value copied as `node_to_toml` copies it.
#[verifier::external_body]
fn table_to_toml(table: &Table) -> (r: toml::Value)
    ensures
        is_plain(NodeView::Table(table@)) ==> toml_model(r) == NodeView::Table(table@),
        !is_plain(NodeView::Table(table@)) ==> toml_model(r) == toml_copy(
            NodeView::Table(table@),
        ),
{
    let mut map = toml::value::Table::new();
    for (key, node) in table.entries.iter() {
        map.insert(key.clone(), node_to_toml(node));
    }
    toml::Value::Table(map)
}

/// Reads `text` as a configuration table.
///
/// Gives the table that the document holds, or the parser's message where
/// the text is no such document.
pub fn parse_table(text: &str) -> (r: Result<Table, String>)
    ensures
        match r {
            Ok(t) => toml_parsed(text@) == Ok::<NodeView, Seq<char>>(NodeView::Table(t@)),
            Err(e) => toml_parsed(text@) == Err::<NodeView, Seq<char>>(e@),
        },
{
    match toml_from_str(text) {
        Ok(v) => match node_from_toml(&v) {
            Node::Table(t) => Ok(t),
            _ => unreached(),
        },
        Err(e) => Err(e),
    }
}

/// Writes `table` as a configuration document.
///
/// Gives the text, or the writer's message where the table cannot be
/// written.
pub fn render_table(table: &Table) -> (r: Result<String, String>)
    ensures
        match r {
            Ok(text) => toml_rendered(copied(NodeView::Table(table@))) == Ok::<
                Seq<char>,
                Seq<char>,
            >(text@),
            Err(e) => toml_rendered(copied(NodeView::Table(table@))) == Err::<
                Seq<char>,
                Seq<char>,
            >(e@),
        },
{
    let value = table_to_toml(table);
    toml_to_string(&value)
}

} // verus!

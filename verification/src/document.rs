//! The value tree of a YAML document and its mathematical model.

use vstd::prelude::*;

verus! {

/// The mathematical model of a YAML value tree.
///
/// Scalars carry their text or number; a sequence is an ordered list of
/// children and a mapping is an ordered list of key/value pairs, in the order
/// in which the pairs were inserted.
pub enum Node {
    /// A floating-point scalar, kept as the text it was written with.
    Real(Seq<char>),
    /// An integer scalar.
    Integer(int),
    /// A string scalar.
    Text(Seq<char>),
    /// A boolean scalar.
    Boolean(bool),
    /// An ordered sequence of values.
    Sequence(Seq<Node>),
    /// A mapping from value to value, in insertion order.
    Mapping(Seq<(Node, Node)>),
    /// A reference to the anchor with the given number.
    Alias(nat),
    /// The null scalar.
    Null,
    /// The value of an empty document or of a scalar that contradicts its tag.
    BadValue,
}

/// A YAML value tree held in memory.
#[derive(Debug, PartialEq, Eq)]
pub enum Document {
    /// A floating-point scalar, kept as the text it was written with.
    Real(String),
    /// An integer scalar.
    Integer(i64),
    /// A string scalar.
    Text(String),
    /// A boolean scalar.
    Boolean(bool),
    /// An ordered sequence of values.
    Sequence(Vec<Document>),
    /// A mapping from value to value, in insertion order.
    Mapping(Vec<(Document, Document)>),
    /// A reference to the anchor with the given number.
    Alias(usize),
    /// The null scalar.
    Null,
    /// The value of an empty document or of a scalar that contradicts its tag.
    BadValue,
}

/// The tree that a document holds.
pub open spec fn node_of(document: Document) -> Node
    decreases document, 0nat,
{
    match document {
        Document::Real(text) => Node::Real(text@),
        Document::Integer(number) => Node::Integer(number as int),
        Document::Text(text) => Node::Text(text@),
        Document::Boolean(flag) => Node::Boolean(flag),
        Document::Sequence(items) => Node::Sequence(nodes_of(items@, items@.len())),
        Document::Mapping(entries) => Node::Mapping(pairs_of(entries@, entries@.len())),
        Document::Alias(anchor) => Node::Alias(anchor as nat),
        Document::Null => Node::Null,
        Document::BadValue => Node::BadValue,
    }
}

/// The trees of the first `count` of `items`, in their order.
pub open spec fn nodes_of(items: Seq<Document>, count: nat) -> Seq<Node>
    decreases items, count,
{
    if count == 0 || count > items.len() {
        Seq::empty()
    } else {
        nodes_of(items, (count - 1) as nat).push(node_of(items[count - 1]))
    }
}

/// The trees of the first `count` of `entries`, key and value, in their order.
pub open spec fn pairs_of(entries: Seq<(Document, Document)>, count: nat) -> Seq<(Node, Node)>
    decreases entries, count,
{
    if count == 0 || count > entries.len() {
        Seq::empty()
    } else {
        pairs_of(entries, (count - 1) as nat).push(
            (node_of(entries[count - 1].0), node_of(entries[count - 1].1)),
        )
    }
}

impl View for Document {
    type V = Node;

    open spec fn view(&self) -> Node {
        node_of(*self)
    }
}

/// `nodes_of` keeps length and order: it holds one tree for each of the
/// items counted, at the item's place.
pub proof fn lemma_nodes_of(items: Seq<Document>, count: nat)
    requires
        count <= items.len(),
    ensures
        nodes_of(items, count).len() == count,
        forall|k: int| 0 <= k < count ==> #[trigger] nodes_of(items, count)[k] == node_of(items[k]),
    decreases count,
{
    if count > 0 {
        lemma_nodes_of(items, (count - 1) as nat);
    }
}

/// `pairs_of` keeps length and order: it holds one pair of trees for each of
/// the entries counted, at the entry's place.
pub proof fn lemma_pairs_of(entries: Seq<(Document, Document)>, count: nat)
    requires
        count <= entries.len(),
    ensures
        pairs_of(entries, count).len() == count,
        forall|k: int| 0 <= k < count ==> #[trigger] pairs_of(entries, count)[k] == (
            node_of(entries[k].0),
            node_of(entries[k].1),
        ),
    decreases count,
{
    if count > 0 {
        lemma_pairs_of(entries, (count - 1) as nat);
    }
}

} // verus!

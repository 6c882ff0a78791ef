//! The boundary to the `yaml-rust` parser.
//!
//! The parser's values are opaque here. What they hold is given a name, the
//! few calls into the parser state their results over those names, and
//! verified code turns the parser's values into the library's own.

use vstd::prelude::*;
use yaml_rust::ScanError;
use yaml_rust::Yaml;
use yaml_rust::YamlLoader;
use crate::document::lemma_nodes_of;
use crate::document::lemma_pairs_of;
use crate::document::nodes_of;
use crate::document::pairs_of;
use crate::document::Document;
use crate::document::Node;

verus! {

/// A value tree as the parser builds it.
#[verifier::external_type_specification]
#[verifier::external_body]
pub struct ExYaml(yaml_rust::Yaml);

/// The error with which the parser rejects a text.
#[verifier::external_type_specification]
#[verifier::external_body]
pub struct ExScanError(yaml_rust::ScanError);

/// The mathematical model of a rejected text: what the parser reports and
/// where in the text it gave up.
pub struct Failure {
    /// The parser's message, position included.
    pub message: Seq<char>,
    /// The number of characters read before the offending one.
    pub index: nat,
    /// The line of the offending character.
    pub line: nat,
    /// The column of the offending character.
    pub column: nat,
}

/// A rejected text, as plain values.
#[derive(Debug, PartialEq, Eq)]
pub struct ParseFailure {
    /// The parser's message, position included.
    pub message: String,
    /// The number of characters read before the offending one.
    pub index: usize,
    /// The line of the offending character.
    pub line: usize,
    /// The column of the offending character.
    pub column: usize,
}

impl View for ParseFailure {
    type V = Failure;

    open spec fn view(&self) -> Failure {
        Failure {
            message: self.message@,
            index: self.index as nat,
            line: self.line as nat,
            column: self.column as nat,
        }
    }
}

/// The tree that a parser value holds.
pub uninterp spec fn yaml_node(value: Yaml) -> Node;

/// The report that a parser error holds.
pub uninterp spec fn scan_failure(error: ScanError) -> Failure;

/// What the parser makes of a text: the trees of its documents in the order
/// in which they stand in the text, or the report of its rejection.
pub uninterp spec fn yaml_stream(text: Seq<char>) -> Result<Seq<Node>, Failure>;

/// The trees that a list of parser values holds.
pub open spec fn yaml_nodes(values: Seq<Yaml>) -> Seq<Node> {
    Seq::new(values.len(), |i: int| yaml_node(values[i]))
}

/// The pairs of trees that a list of pairs of parser values holds.
pub open spec fn yaml_pairs(entries: Seq<(&Yaml, &Yaml)>) -> Seq<(Node, Node)> {
    Seq::new(entries.len(), |i: int| (yaml_node(*entries[i].0), yaml_node(*entries[i].1)))
}

/// One level of a parser value: its variant, with the fields borrowed.
pub(crate) enum Shape<'a> {
    Real(&'a String),
    Integer(i64),
    Text(&'a String),
    Boolean(bool),
    Sequence(&'a Vec<Yaml>),
    Mapping(Vec<(&'a Yaml, &'a Yaml)>),
    Alias(usize),
    Null,
    BadValue,
}

impl<'a> Shape<'a> {
    /// The tree that a parser value of this shape holds.
    pub(crate) open spec fn node(self) -> Node {
        match self {
            Shape::Real(s) => Node::Real(s@),
            Shape::Integer(i) => Node::Integer(i as int),
            Shape::Text(s) => Node::Text(s@),
            Shape::Boolean(b) => Node::Boolean(b),
            Shape::Sequence(items) => Node::Sequence(yaml_nodes(items@)),
            Shape::Mapping(entries) => Node::Mapping(yaml_pairs(entries@)),
            Shape::Alias(n) => Node::Alias(n as nat),
            Shape::Null => Node::Null,
            Shape::BadValue => Node::BadValue,
        }
    }
}

/// Calls `yaml_rust::YamlLoader::load_from_str`.
///
/// Unproved: the call returns, and what it returns depends on the text alone;
/// that result is named `yaml_stream`. Nothing is claimed of which texts the
/// parser accepts or of the trees it builds.
#[verifier::external_body]
pub(crate) fn load_from_str(text: &str) -> (loaded: Result<Vec<Yaml>, ScanError>)
    ensures
        match loaded {
            Ok(values) => yaml_stream(text@) == Ok::<Seq<Node>, Failure>(yaml_nodes(values@)),
            Err(error) => yaml_stream(text@) == Err::<Seq<Node>, Failure>(scan_failure(error)),
        },
{
    YamlLoader::load_from_str(text)
}

/// Tells the variants of `yaml_rust::Yaml` apart and borrows the fields; the
/// pairs of a `Hash` are collected from `LinkedHashMap::iter`, which walks
/// them in insertion order.
///
/// Unproved: the tree named for the value is the one that this variant and
/// the trees named for its fields make up.
#[verifier::external_body]
pub(crate) fn shape(value: &Yaml) -> (s: Shape<'_>)
    ensures
        s.node() == yaml_node(*value),
{
    match value {
        Yaml::Real(text) => Shape::Real(text),
        Yaml::Integer(number) => Shape::Integer(*number),
        Yaml::String(text) => Shape::Text(text),
        Yaml::Boolean(flag) => Shape::Boolean(*flag),
        Yaml::Array(items) => Shape::Sequence(items),
        Yaml::Hash(entries) => Shape::Mapping(entries.iter().collect()),
        Yaml::Alias(anchor) => Shape::Alias(*anchor),
        Yaml::Null => Shape::Null,
        Yaml::BadValue => Shape::BadValue,
    }
}

/// Reads a `yaml_rust::ScanError`: its `Display` text, and `index`, `line`
/// and `col` of its `marker`.
///
/// Unproved: the report named for the error holds these four values.
#[verifier::external_body]
pub(crate) fn report(error: &ScanError) -> (failure: ParseFailure)
    ensures
        failure@ == scan_failure(*error),
{
    let mark = error.marker();
    ParseFailure {
        message: error.to_string(),
        index: mark.index(),
        line: mark.line(),
        column: mark.col(),
    }
}

/// Copies a parser value into a `Document`.
pub fn lift(value: &Yaml) -> (document: Document)
    ensures
        document@ == yaml_node(*value),
    decreases yaml_node(*value), 0nat,
{
    match shape(value) {
        Shape::Real(text) => Document::Real(text.clone()),
        Shape::Integer(number) => Document::Integer(number),
        Shape::Text(text) => Document::Text(text.clone()),
        Shape::Boolean(flag) => Document::Boolean(flag),
        Shape::Sequence(items) => {
            proof {
                let whole = yaml_node(*value);
                assert(decreases_to!(whole => whole->Sequence_0));
            }
            let children = lift_items(items);
            proof {
                lemma_nodes_of(children@, children@.len());
                assert(nodes_of(children@, children@.len()) =~= yaml_nodes(items@));
            }
            Document::Sequence(children)
        },
        Shape::Mapping(entries) => {
            proof {
                let whole = yaml_node(*value);
                assert(decreases_to!(whole => whole->Mapping_0));
            }
            let children = lift_entries(&entries);
            proof {
                lemma_pairs_of(children@, children@.len());
                assert(pairs_of(children@, children@.len()) =~= yaml_pairs(entries@));
            }
            Document::Mapping(children)
        },
        Shape::Alias(anchor) => Document::Alias(anchor),
        Shape::Null => Document::Null,
        Shape::BadValue => Document::BadValue,
    }
}

/// Copies the items of a sequence, in their order.
fn lift_items(items: &Vec<Yaml>) -> (children: Vec<Document>)
    ensures
        children@.len() == items@.len(),
        forall|k: int| 0 <= k < items@.len() ==> (#[trigger] children@[k])@ == yaml_node(items@[k]),
    decreases yaml_nodes(items@), 1nat,
{
    let mut children: Vec<Document> = Vec::new();
    let mut i: usize = 0;
    while i < items.len()
        invariant
            i <= items.len(),
            children@.len() == i,
            forall|k: int| 0 <= k < i ==> (#[trigger] children@[k])@ == yaml_node(items@[k]),
        decreases items.len() - i,
    {
        assert(yaml_nodes(items@)[i as int] == yaml_node(items@[i as int]));
        children.push(lift(&items[i]));
        i += 1;
    }
    children
}

/// Copies the pairs of a mapping, in their order.
fn lift_entries(entries: &Vec<(&Yaml, &Yaml)>) -> (children: Vec<(Document, Document)>)
    ensures
        children@.len() == entries@.len(),
        forall|k: int|
            0 <= k < entries@.len() ==> (#[trigger] children@[k]).0@ == yaml_node(*entries@[k].0)
                && children@[k].1@ == yaml_node(*entries@[k].1),
    decreases yaml_pairs(entries@), 1nat,
{
    let mut children: Vec<(Document, Document)> = Vec::new();
    let mut i: usize = 0;
    while i < entries.len()
        invariant
            i <= entries.len(),
            children@.len() == i,
            forall|k: int|
                0 <= k < i ==> (#[trigger] children@[k]).0@ == yaml_node(*entries@[k].0)
                    && children@[k].1@ == yaml_node(*entries@[k].1),
        decreases entries.len() - i,
    {
        proof {
            let pair = yaml_pairs(entries@)[i as int];
            assert(pair == (yaml_node(*entries@[i as int].0), yaml_node(*entries@[i as int].1)));
            assert(decreases_to!(pair => pair.0));
            assert(decreases_to!(pair => pair.1));
        }
        let key = lift(entries[i].0);
        let item = lift(entries[i].1);
        children.push((key, item));
        i += 1;
    }
    children
}

} // verus!

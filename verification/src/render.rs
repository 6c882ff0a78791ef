//! Rendering a value tree as one piece of text.
//!
//! The text names each value's kind and holds its contents in brackets:
//! `Hash({String("a"): Integer(1)})` for the mapping `a: 1`.

use vstd::prelude::*;
use vstd::string::*;
use crate::decimal::decimal;
use crate::decimal::lemma_decimal_digits;
use crate::decimal::push_decimal;
use crate::decimal::push_signed_decimal;
use crate::decimal::signed_decimal;
use crate::document::lemma_nodes_of;
use crate::document::lemma_pairs_of;
use crate::document::Document;
use crate::document::Node;

verus! {

/// A text between double quotes, with the characters that cannot stand for
/// themselves there written as escapes: what `{:?}` makes of a `str`.
pub uninterp spec fn debug_quoted(text: Seq<char>) -> Seq<char>;

/// The rendering of a tree.
pub open spec fn render(node: Node) -> Seq<char>
    decreases node, 0nat,
{
    match node {
        Node::Real(text) => "Real("@ + debug_quoted(text) + ")"@,
        Node::Integer(number) => "Integer("@ + signed_decimal(number) + ")"@,
        Node::Text(text) => "String("@ + debug_quoted(text) + ")"@,
        Node::Boolean(flag) => if flag {
            "Boolean(true)"@
        } else {
            "Boolean(false)"@
        },
        Node::Sequence(items) => "Array(["@ + render_items(items, items.len()) + "])"@,
        Node::Mapping(pairs) => "Hash({"@ + render_pairs(pairs, pairs.len()) + "})"@,
        Node::Alias(anchor) => "Alias("@ + decimal(anchor) + ")"@,
        Node::Null => "Null"@,
        Node::BadValue => "BadValue"@,
    }
}

/// The renderings of the first `count` of `items`, with `, ` between them.
pub open spec fn render_items(items: Seq<Node>, count: nat) -> Seq<char>
    recommends
        count <= items.len(),
    decreases items, count,
{
    if count == 0 || count > items.len() {
        Seq::empty()
    } else if count == 1 {
        render(items[0])
    } else {
        render_items(items, (count - 1) as nat) + ", "@ + render(items[count - 1])
    }
}

/// The rendering of one pair of a mapping: key, `: `, value.
pub open spec fn render_pair(pair: (Node, Node)) -> Seq<char>
    decreases pair, 0nat,
{
    render(pair.0) + ": "@ + render(pair.1)
}

/// The renderings of the first `count` of `pairs`, with `, ` between them.
pub open spec fn render_pairs(pairs: Seq<(Node, Node)>, count: nat) -> Seq<char>
    recommends
        count <= pairs.len(),
    decreases pairs, count,
{
    if count == 0 || count > pairs.len() {
        Seq::empty()
    } else if count == 1 {
        render_pair(pairs[0])
    } else {
        render_pairs(pairs, (count - 1) as nat) + ", "@ + render_pair(pairs[count - 1])
    }
}

/// No line feed stands in `text`.
pub open spec fn single_line(text: Seq<char>) -> bool {
    forall|k: int| 0 <= k < text.len() ==> text[k] != '\n'
}

/// Every scalar text in the tree is free of line feeds once it is quoted.
pub open spec fn quotes_single_line(node: Node) -> bool
    decreases node,
{
    match node {
        Node::Real(text) => single_line(debug_quoted(text)),
        Node::Text(text) => single_line(debug_quoted(text)),
        Node::Sequence(items) => forall|k: int|
            0 <= k < items.len() ==> quotes_single_line(#[trigger] items[k]),
        Node::Mapping(pairs) => forall|k: int|
            0 <= k < pairs.len() ==> quotes_single_line((#[trigger] pairs[k]).0)
                && quotes_single_line(pairs[k].1),
        _ => true,
    }
}

/// A text put together from two is free of line feeds exactly when both are.
pub proof fn lemma_single_line_concat(front: Seq<char>, back: Seq<char>)
    ensures
        single_line(front + back) <==> single_line(front) && single_line(back),
{
    let whole = front + back;
    if single_line(whole) {
        assert forall|k: int| 0 <= k < front.len() implies front[k] != '\n' by {
            assert(whole[k] == front[k]);
        }
        assert forall|k: int| 0 <= k < back.len() implies back[k] != '\n' by {
            assert(whole[k + front.len()] == back[k]);
        }
    }
}

/// The rendering brings in no line feed of its own: one can come only from
/// inside a quoted scalar.
pub proof fn lemma_render_single_line(node: Node)
    ensures
        quotes_single_line(node) ==> single_line(render(node)),
    decreases node, 0nat,
{
    reveal_strlit("Real(");
    reveal_strlit("Integer(");
    reveal_strlit("String(");
    reveal_strlit("Boolean(true)");
    reveal_strlit("Boolean(false)");
    reveal_strlit("Array([");
    reveal_strlit("])");
    reveal_strlit("Hash({");
    reveal_strlit("})");
    reveal_strlit("Alias(");
    reveal_strlit(")");
    reveal_strlit("Null");
    reveal_strlit("BadValue");
    match node {
        Node::Real(text) => {
            lemma_single_line_concat("Real("@, debug_quoted(text));
            lemma_single_line_concat("Real("@ + debug_quoted(text), ")"@);
        },
        Node::Integer(number) => {
            let digits = signed_decimal(number);
            if number < 0 {
                lemma_decimal_digits((-number) as nat);
            } else {
                lemma_decimal_digits(number as nat);
            }
            assert(single_line(digits));
            lemma_single_line_concat("Integer("@, digits);
            lemma_single_line_concat("Integer("@ + digits, ")"@);
        },
        Node::Text(text) => {
            lemma_single_line_concat("String("@, debug_quoted(text));
            lemma_single_line_concat("String("@ + debug_quoted(text), ")"@);
        },
        Node::Boolean(flag) => {},
        Node::Sequence(items) => {
            lemma_items_single_line(items, items.len());
            let inner = render_items(items, items.len());
            lemma_single_line_concat("Array(["@, inner);
            lemma_single_line_concat("Array(["@ + inner, "])"@);
        },
        Node::Mapping(pairs) => {
            lemma_pairs_single_line(pairs, pairs.len());
            let inner = render_pairs(pairs, pairs.len());
            lemma_single_line_concat("Hash({"@, inner);
            lemma_single_line_concat("Hash({"@ + inner, "})"@);
        },
        Node::Alias(anchor) => {
            lemma_decimal_digits(anchor);
            lemma_single_line_concat("Alias("@, decimal(anchor));
            lemma_single_line_concat("Alias("@ + decimal(anchor), ")"@);
        },
        Node::Null => {},
        Node::BadValue => {},
    }
}

/// The same for the items of a sequence.
pub proof fn lemma_items_single_line(items: Seq<Node>, count: nat)
    requires
        count <= items.len(),
    ensures
        (forall|k: int| 0 <= k < items.len() ==> quotes_single_line(#[trigger] items[k]))
            ==> single_line(render_items(items, count)),
    decreases items, count,
{
    reveal_strlit(", ");
    if count > 0 {
        let last = items[count - 1];
        lemma_render_single_line(last);
        if count > 1 {
            let front = render_items(items, (count - 1) as nat);
            lemma_items_single_line(items, (count - 1) as nat);
            lemma_single_line_concat(front, ", "@);
            lemma_single_line_concat(front + ", "@, render(last));
        }
    }
}

/// The same for the pairs of a mapping.
pub proof fn lemma_pairs_single_line(pairs: Seq<(Node, Node)>, count: nat)
    requires
        count <= pairs.len(),
    ensures
        (forall|k: int|
            0 <= k < pairs.len() ==> quotes_single_line((#[trigger] pairs[k]).0)
                && quotes_single_line(pairs[k].1)) ==> single_line(render_pairs(pairs, count)),
    decreases pairs, count,
{
    reveal_strlit(", ");
    reveal_strlit(": ");
    if count > 0 {
        let last = pairs[count - 1];
        lemma_render_single_line(last.0);
        lemma_render_single_line(last.1);
        lemma_single_line_concat(render(last.0), ": "@);
        lemma_single_line_concat(render(last.0) + ": "@, render(last.1));
        assert(render_pair(last) == render(last.0) + ": "@ + render(last.1));
        if count > 1 {
            let front = render_pairs(pairs, (count - 1) as nat);
            lemma_pairs_single_line(pairs, (count - 1) as nat);
            lemma_single_line_concat(front, ", "@);
            lemma_single_line_concat(front + ", "@, render_pair(last));
        }
    }
}

/// Formats a `str` with `{:?}`, std's `Debug` for `str`.
///
/// Unproved: the result depends on the text alone; it is named
/// `debug_quoted`. Nothing is claimed of which characters are escaped.
#[verifier::external_body]
fn quote(text: &str) -> (quoted: String)
    ensures
        quoted@ == debug_quoted(text@),
{
    format!("{:?}", text)
}

/// Appends the rendering of `document` to `out`.
pub fn render_into(document: &Document, out: &mut String)
    ensures
        final(out)@ == old(out)@ + render(document@),
    decreases document,
{
    match document {
        Document::Real(text) => {
            out.append("Real(");
            let quoted = quote(text.as_str());
            out.append(quoted.as_str());
            out.append(")");
            assert(final(out)@ =~= old(out)@ + render(document@));
        },
        Document::Integer(number) => {
            out.append("Integer(");
            push_signed_decimal(out, *number);
            out.append(")");
            assert(final(out)@ =~= old(out)@ + render(document@));
        },
        Document::Text(text) => {
            out.append("String(");
            let quoted = quote(text.as_str());
            out.append(quoted.as_str());
            out.append(")");
            assert(final(out)@ =~= old(out)@ + render(document@));
        },
        Document::Boolean(flag) => {
            if *flag {
                out.append("Boolean(true)");
            } else {
                out.append("Boolean(false)");
            }
        },
        Document::Sequence(items) => {
            out.append("Array([");
            let ghost nodes = document@->Sequence_0;
            proof {
                lemma_nodes_of(items@, items@.len());
            }
            assert(*document == Document::Sequence(*items));
            assert(document@ is Sequence);
            assert(document.view() == Document::Sequence(*items).view());
            let ghost expected = Seq::new(
                    items@.len(),
                    |i: int|
                        if 0 <= i < items@.len() {
                            items@[i].view()
                        } else {
                            Node::Null
                        },
                );
            assert(expected.len() == items@.len());
            assert(Document::Sequence(*items).view()->Sequence_0 =~= expected);
            assert(nodes =~= expected);
            assert(nodes.len() == items@.len());
            let mut i: usize = 0;
            while i < items.len()
                invariant
                    i <= items.len(),
                    document == Document::Sequence(*items),
                    nodes == document@->Sequence_0,
                    nodes.len() == items@.len(),
                    forall|k: int| 0 <= k < nodes.len() ==> #[trigger] nodes[k] == items@[k]@,
                    out@ == old(out)@ + "Array(["@ + render_items(nodes, i as nat),
                decreases items.len() - i,
            {
                if i > 0 {
                    out.append(", ");
                }
                assert(nodes[i as int] == items@[i as int]@);
                render_into(&items[i], out);
                i += 1;
                assert(out@ =~= old(out)@ + "Array(["@ + render_items(nodes, i as nat));
            }
            out.append("])");
            assert(final(out)@ =~= old(out)@ + render(document@));
        },
        Document::Mapping(entries) => {
            out.append("Hash({");
            let ghost pairs = document@->Mapping_0;
            proof {
                lemma_pairs_of(entries@, entries@.len());
            }
            let mut i: usize = 0;
            while i < entries.len()
                invariant
                    i <= entries.len(),
                    document == Document::Mapping(*entries),
                    pairs == document@->Mapping_0,
                    pairs.len() == entries@.len(),
                    forall|k: int| 0 <= k < pairs.len() ==> #[trigger] pairs[k] == (
                        entries@[k].0@,
                        entries@[k].1@,
                    ),
                    out@ == old(out)@ + "Hash({"@ + render_pairs(pairs, i as nat),
                decreases entries.len() - i,
            {
                if i > 0 {
                    out.append(", ");
                }
                assert(pairs[i as int] == (entries@[i as int].0@, entries@[i as int].1@));
                render_into(&entries[i].0, out);
                out.append(": ");
                render_into(&entries[i].1, out);
                i += 1;
                proof {
                    let pair = pairs[i - 1];
                    assert(render_pair(pair) == render(pair.0) + ": "@ + render(pair.1));
                    assert(out@ =~= old(out)@ + "Hash({"@ + render_pairs(pairs, i as nat));
                }
            }
            out.append("})");
            assert(final(out)@ =~= old(out)@ + render(document@));
        },
        Document::Alias(anchor) => {
            out.append("Alias(");
            push_decimal(out, *anchor as u64);
            out.append(")");
            assert(final(out)@ =~= old(out)@ + render(document@));
        },
        Document::Null => {
            out.append("Null");
        },
        Document::BadValue => {
            out.append("BadValue");
        },
    }
}

/// The rendering of `document` as a text of its own.
pub fn render_document(document: &Document) -> (line: String)
    ensures
        line@ == render(document@),
{
    let mut line = String::new();
    render_into(document, &mut line);
    assert(line@ =~= render(document@));
    line
}

} // verus!

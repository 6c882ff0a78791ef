use filecollector::lift;
use filecollector::load_text;
use filecollector::render_document;
use filecollector::render_into;
use filecollector::Document;
use yaml_rust::Yaml;
use yaml_rust::YamlLoader;

fn debug_of_first(contents: &str) -> String {
    let documents = YamlLoader::load_from_str(contents).unwrap();
    format!("{:?}", documents[0])
}

fn same_as_debug(contents: &str) {
    assert_eq!(load_text(contents).unwrap(), debug_of_first(contents));
}

#[test]
fn scalars_render_with_their_kind() {
    assert_eq!(load_text("42").unwrap(), "Integer(42)");
    assert_eq!(load_text("-17").unwrap(), "Integer(-17)");
    assert_eq!(load_text("0").unwrap(), "Integer(0)");
    assert_eq!(load_text("0x1F").unwrap(), "Integer(31)");
    assert_eq!(load_text("1.5").unwrap(), "Real(\"1.5\")");
    assert_eq!(load_text(".inf").unwrap(), "Real(\".inf\")");
    assert_eq!(load_text("true").unwrap(), "Boolean(true)");
    assert_eq!(load_text("false").unwrap(), "Boolean(false)");
    assert_eq!(load_text("~").unwrap(), "Null");
    assert_eq!(load_text("null").unwrap(), "Null");
    assert_eq!(load_text("hello").unwrap(), "String(\"hello\")");
    assert_eq!(load_text("\"42\"").unwrap(), "String(\"42\")");
    assert_eq!(load_text("!!int abc").unwrap(), "BadValue");
}

#[test]
fn sequences_render_in_order() {
    assert_eq!(load_text("[]").unwrap(), "Array([])");
    assert_eq!(load_text("[1]").unwrap(), "Array([Integer(1)])");
    assert_eq!(
        load_text("- 1\n- two\n- 3.0\n").unwrap(),
        "Array([Integer(1), String(\"two\"), Real(\"3.0\")])"
    );
    assert_eq!(
        load_text("[[1, 2], [], [3]]").unwrap(),
        "Array([Array([Integer(1), Integer(2)]), Array([]), Array([Integer(3)])])"
    );
}

#[test]
fn mappings_render_in_insertion_order() {
    assert_eq!(load_text("{}").unwrap(), "Hash({})");
    assert_eq!(
        load_text("zebra: 1\napple: 2\nmango: 3\n").unwrap(),
        "Hash({String(\"zebra\"): Integer(1), String(\"apple\"): Integer(2), String(\"mango\"): Integer(3)})"
    );
    assert_eq!(
        load_text("1: one\n[a, b]: pair\n").unwrap(),
        "Hash({Integer(1): String(\"one\"), Array([String(\"a\"), String(\"b\")]): String(\"pair\")})"
    );
}

#[test]
fn strings_are_quoted_and_escaped() {
    assert_eq!(
        load_text("\"line\\nbreak\"").unwrap(),
        "String(\"line\\nbreak\")"
    );
    assert_eq!(
        load_text("'say \"hi\"'").unwrap(),
        "String(\"say \\\"hi\\\"\")"
    );
    assert_eq!(load_text("\"tab\\there\"").unwrap(), "String(\"tab\\there\")");
    assert_eq!(load_text("'back\\slash'").unwrap(), "String(\"back\\\\slash\")");
    assert_eq!(load_text("\"\"").unwrap(), "String(\"\")");
}

#[test]
fn rendering_agrees_with_the_parser_s_own_debug_text() {
    same_as_debug("a: 1");
    same_as_debug("a: 1\n---\nb: 2");
    same_as_debug("name: Ogre\nposition: [0, 5, 0]\npowers:\n  - name: Club\n    damage: 10\n  - name: Fist\n    damage: 8\n");
    same_as_debug("- &anchor {x: 1, y: [true, ~]}\n- *anchor\n");
    same_as_debug("? [complex, key]\n: {nested: {deeper: [1.25, -3, 'q']}}\n");
    same_as_debug("text: \"multi\\nline \\u263A \\x07 \\\\ \\\" end\"\n");
    same_as_debug("unicode: \"caf\u{e9} \u{301}combining \u{200b}zero \u{1F600}\"\n");
    same_as_debug("big: 9223372036854775807\nsmall: -9223372036854775808\nover: 9223372036854775808\n");
    same_as_debug("dup: 1\nother: 2\ndup: 3\n");
    same_as_debug("---\n");
    same_as_debug("block: |\n  first\n  second\nfolded: >\n  one\n  two\n");
}

#[test]
fn lifting_keeps_every_kind_of_value() {
    let mut hash = yaml_rust::yaml::Hash::new();
    hash.insert(Yaml::String(String::from("k")), Yaml::Alias(3));
    hash.insert(Yaml::Integer(i64::MIN), Yaml::BadValue);
    hash.insert(Yaml::Null, Yaml::Real(String::from("2.5e3")));
    let value = Yaml::Array(vec![
        Yaml::Hash(hash),
        Yaml::Boolean(false),
        Yaml::Alias(0),
        Yaml::Alias(usize::MAX),
        Yaml::Integer(i64::MAX),
        Yaml::Array(Vec::new()),
    ]);
    let document = lift(&value);
    let expected = Document::Sequence(vec![
        Document::Mapping(vec![
            (Document::Text(String::from("k")), Document::Alias(3)),
            (Document::Integer(i64::MIN), Document::BadValue),
            (Document::Null, Document::Real(String::from("2.5e3"))),
        ]),
        Document::Boolean(false),
        Document::Alias(0),
        Document::Alias(usize::MAX),
        Document::Integer(i64::MAX),
        Document::Sequence(Vec::new()),
    ]);
    assert_eq!(document, expected);
    assert_eq!(render_document(&document), format!("{:?}", value));
}

#[test]
fn lifting_follows_insertion_order_after_an_update() {
    let mut hash = yaml_rust::yaml::Hash::new();
    hash.insert(Yaml::Integer(1), Yaml::Integer(10));
    hash.insert(Yaml::Integer(2), Yaml::Integer(20));
    hash.insert(Yaml::Integer(1), Yaml::Integer(30));
    let value = Yaml::Hash(hash);
    assert_eq!(render_document(&lift(&value)), format!("{:?}", value));
}

#[test]
fn document_renders_by_hand() {
    let document = Document::Mapping(vec![
        (
            Document::Text(String::from("a")),
            Document::Sequence(vec![Document::Integer(-5), Document::Null]),
        ),
        (Document::Boolean(true), Document::Real(String::from("0.5"))),
    ]);
    assert_eq!(
        render_document(&document),
        "Hash({String(\"a\"): Array([Integer(-5), Null]), Boolean(true): Real(\"0.5\")})"
    );
}

#[test]
fn render_into_appends_to_what_is_there() {
    let mut out = String::from("doc = ");
    render_into(&Document::Alias(12), &mut out);
    assert_eq!(out, "doc = Alias(12)");
    render_into(&Document::BadValue, &mut out);
    assert_eq!(out, "doc = Alias(12)BadValue");
}

#[test]
fn quoting_changes_the_text() {
    let rendered = render_document(&Document::Text(String::from("plain")));
    assert_eq!(rendered, "String(\"plain\")");
    assert_ne!(rendered, "String(plain)");
}

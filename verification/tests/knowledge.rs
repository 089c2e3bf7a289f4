//! Rendering, wrapping and table behaviour of the knowledge base.

use dsl_sql::knowledge::entry::{data_type_at, function, keyword};
use dsl_sql::knowledge::render::kind_label;
use dsl_sql::{lookup, lookup_in, render_markdown, wrap_paragraphs, Entry, Kind, Table, PG_DOCS_BASE};

#[test]
fn wrap_breaks_greedily_at_width() {
    assert_eq!(wrap_paragraphs("aaa bbb ccc", 7), "aaa bbb\nccc");
    assert_eq!(wrap_paragraphs("aaa bbb ccc", 11), "aaa bbb ccc");
    assert_eq!(wrap_paragraphs("aaa  bbb\tccc", 80), "aaa bbb ccc");
}

#[test]
fn wrap_keeps_a_long_word_whole() {
    assert_eq!(wrap_paragraphs("a abcdefghij b", 4), "a\nabcdefghij\nb");
}

#[test]
fn wrap_leaves_fences_lists_and_blank_lines_alone() {
    let text = "one two three\n\n```sql\nselect a, b, c from t\n```\n- item one two three\n    indented one two three";
    let want = "one\ntwo\nthree\n\n```sql\nselect a, b, c from t\n```\n- item one two three\n    indented one two three";
    assert_eq!(wrap_paragraphs(text, 5), want);
}

#[test]
fn wrap_counts_characters_not_bytes() {
    assert_eq!(wrap_paragraphs("ééé ééé", 7), "ééé ééé");
    assert_eq!(wrap_paragraphs("ééé ééé", 6), "ééé\nééé");
}

#[test]
fn render_exact_function_entry() {
    let e = Entry {
        label: "lower",
        kind: Kind::Function,
        doc: "Convert to lower case.",
        signature: Some("lower(text) -> text  "),
        example: "SELECT lower('A');\n",
        url: "https://example.org/lower".to_string(),
    };
    let want = "# lower\n\n_Function_\n\n```sql\nlower(text) -> text\n```\n\nConvert to lower case.\n\n**Example**\n\n```sql\nSELECT lower('A');\n```\n\n[Postgres docs](https://example.org/lower)\n";
    assert_eq!(render_markdown(&e), want);
}

#[test]
fn render_skips_empty_sections() {
    let e = Entry { label: "X", kind: Kind::Keyword, doc: "", signature: None, example: "", url: String::new() };
    assert_eq!(render_markdown(&e), "# X\n\n_Keyword_\n");
}

#[test]
fn kind_labels() {
    assert_eq!(kind_label(Kind::Keyword), "Keyword");
    assert_eq!(kind_label(Kind::Function), "Function");
    assert_eq!(kind_label(Kind::Type), "Type");
}

#[test]
fn entry_constructors_fill_the_docs_url() {
    let k = keyword("SELECT", "Retrieve rows.", "SELECT 1;", "sql-select.html");
    assert_eq!(k.url, format!("{PG_DOCS_BASE}sql-select.html"));
    assert!(matches!(k.kind, Kind::Keyword));
    assert!(k.signature.is_none());
    let f = function("now", "now() -> timestamptz", "Current time.", "SELECT now();", "functions-datetime.html");
    assert_eq!(f.signature, Some("now() -> timestamptz"));
    assert!(matches!(f.kind, Kind::Function));
    let t = data_type_at("X", "A type.", "", "https://example.org/x");
    assert_eq!(t.url, "https://example.org/x");
}

#[test]
fn table_insert_replaces_an_entry_with_the_same_label() {
    let mut t = Table::new(Kind::Keyword);
    t.insert(keyword("A", "first", "", "a.html"));
    t.insert(keyword("B", "b", "", "b.html"));
    t.insert(keyword("A", "second", "", "a.html"));
    assert_eq!(t.len(), 2);
    assert_eq!(t.get("A").map(|e| e.doc), Some("second"));
    assert!(t.contains_key("B"));
    assert!(!t.contains_key("C"));
    assert!(t.get("C").is_none());
    assert_eq!(t.into_entry("B").map(|e| e.doc), Some("b"));
}

#[test]
fn lookup_searches_keywords_then_functions_then_types() {
    let mut k = Table::new(Kind::Keyword);
    let mut f = Table::new(Kind::Function);
    let mut ty = Table::new(Kind::Type);
    k.insert(keyword("X", "as keyword", "", "x.html"));
    f.insert(function("X", "X()", "as function", "", "x.html"));
    f.insert(function("Y", "Y()", "as function", "", "y.html"));
    ty.insert(dsl_sql::knowledge::entry::data_type("Y", "as type", "", "y.html"));
    ty.insert(dsl_sql::knowledge::entry::data_type("Z", "as type", "", "z.html"));
    assert_eq!(lookup_in(&k, &f, &ty, "X").map(|e| e.doc), Some("as keyword"));
    assert_eq!(lookup_in(&k, &f, &ty, "Y").map(|e| e.doc), Some("as function"));
    assert_eq!(lookup_in(&k, &f, &ty, "Z").map(|e| e.doc), Some("as type"));
    assert!(lookup_in(&k, &f, &ty, "W").is_none());
}

#[test]
fn lookup_finds_catalogued_entries() {
    assert!(matches!(lookup("SELECT").map(|e| e.kind), Some(Kind::Keyword)));
    assert!(matches!(lookup("count").map(|e| e.kind), Some(Kind::Function)));
    assert!(matches!(lookup("UUID").map(|e| e.kind), Some(Kind::Type)));
    assert!(lookup("no such thing").is_none());
}

#[test]
fn wrapping_twice_is_wrapping_once() {
    let text = "  lead  words here and more\n- a list item stays\n```\ncode   stays\n```\nlast one  a  b";
    for width in [1usize, 4, 9, 80] {
        let once = wrap_paragraphs(text, width);
        assert_eq!(wrap_paragraphs(&once, width), once, "width {width}");
    }
}

//! Coverage tests: every catalogued keyword / function / type has a
//! non-empty doc and a usable signature/example where applicable.

use dsl_sql::{functions, keywords, types, Kind};

#[test]
fn every_keyword_has_non_empty_doc() {
    for entry in keywords().entries() {
        let label = entry.label;
        assert!(!entry.doc.trim().is_empty(), "keyword `{label}` has empty doc");
    }
}

#[test]
fn every_type_has_non_empty_doc() {
    for entry in types().entries() {
        let label = entry.label;
        assert!(!entry.doc.trim().is_empty(), "type `{label}` has empty doc");
        assert!(matches!(entry.kind, Kind::Type), "type `{label}` has wrong kind {:?}", entry.kind);
    }
}

#[test]
fn every_function_has_signature() {
    for entry in functions().entries() {
        let label = entry.label;
        assert!(entry.signature.is_some(), "function `{label}` missing signature");
        assert!(matches!(entry.kind, Kind::Function), "function `{label}` has wrong kind {:?}", entry.kind);
    }
}

#[test]
fn every_entry_has_pg_docs_url() {
    // Documentation links matter for the [Postgres docs] footer.
    for entry in keywords().entries() {
        let label = entry.label;
        assert!(!entry.url.is_empty(), "keyword `{label}` missing docs URL");
    }
}

use dsl_sql::{functions, keywords, types, Kind};

#[test]
fn keywords_table_populates() {
    let m = keywords();
    assert!(m.contains_key("SELECT"));
    assert!(m.contains_key("FROM"));
    assert!(m.contains_key("INNER JOIN"));
    let entry = m.get("SELECT").unwrap();
    assert_eq!(entry.kind, Kind::Keyword);
    assert!(entry.doc.contains("Retrieve"));
}

#[test]
fn types_table_populates() {
    let m = types();
    assert!(m.contains_key("UUID"));
    assert!(m.contains_key("TIMESTAMPTZ"));
    assert_eq!(m.get("UUID").unwrap().kind, Kind::Type);
}

#[test]
fn functions_table_populates() {
    let m = functions();
    assert!(m.contains_key("count"));
    assert!(m.contains_key("gen_random_uuid"));
    let entry = m.get("count").unwrap();
    assert_eq!(entry.kind, Kind::Function);
    assert!(entry.signature.is_some());
}

#[test]
fn keywords_table_has_no_duplicate_entries() {
    let _ = keywords();
}

#[test]
fn types_table_has_no_duplicate_entries() {
    let _ = types();
}

#[test]
fn functions_table_has_no_duplicate_entries() {
    let _ = functions();
}

#[test]
fn every_listed_row_is_its_own_entry() {
    // Each table lists each label once, so it holds one entry per row.
    assert_eq!(keywords().len(), 1427);
    assert_eq!(functions().len(), 762);
    assert_eq!(types().len(), 132);
}

#[test]
fn every_url_is_one_absolute_link() {
    for t in [keywords(), functions(), types()] {
        for e in t.entries() {
            assert_eq!(e.url.matches("://").count(), 1, "{}: {}", e.label, e.url);
        }
    }
    assert_eq!(functions().get("cosine_distance").unwrap().url, "https://github.com/pgvector/pgvector");
    assert_eq!(functions().get("st_point").unwrap().url, "https://postgis.net/docs/ST_Point.html");
    assert_eq!(functions().get("count").unwrap().url, "https://www.postgresql.org/docs/current/functions-aggregate.html#FUNCTIONS-AGGREGATE-TABLE");
}

//! The sqlparser backend, end to end through sqlparser itself.

use dsl_sql::parse::ast::{Expr, JoinKind, ParsedFile, Projection, StatementKind, TableRef};
use dsl_sql::parse::dialect::Dialect;
use dsl_sql::parse::range::TextRange;
use dsl_sql::parse::sp_call::SqlpDialect;
use dsl_sql::parse::sp_convert::{expr, split_object_name};
use dsl_sql::parse::sp_parse::{pick, UNSAFE_CHUNK};
use dsl_sql::parse::sp_node::SpExpr;
use dsl_sql::parse::{document, sp_parse};

fn one(sql: &str, dialect: Dialect) -> ParsedFile {
    let chunks = vec![(sql.to_string(), TextRange::new(0, sql.len() as u32))];
    sp_parse::parse(&chunks, dialect)
}

fn kind(sql: &str) -> StatementKind {
    let mut pf = one(sql, Dialect::Postgres);
    assert!(pf.errors.is_empty(), "{:?}", pf.errors);
    assert_eq!(pf.statements.len(), 1);
    pf.statements.remove(0).kind
}

fn col(e: &Expr) -> (Option<String>, String) {
    match e {
        Expr::Column { qualifier, name, .. } => (qualifier.clone(), name.clone()),
        other => panic!("not a column: {other:?}"),
    }
}

fn other(e: &Expr) -> String {
    match e {
        Expr::Other(t) => t.clone(),
        e => panic!("not other: {e:?}"),
    }
}

fn table(t: &TableRef) -> (Option<String>, String, Option<String>) {
    (t.schema.clone(), t.name.clone(), t.alias.clone())
}

fn some(v: &str) -> Option<String> {
    Some(v.to_string())
}

#[test]
fn select_with_join_and_where() {
    let StatementKind::Select(sel) =
        kind("SELECT a, t.b AS bb, s.t.c, t.* FROM s.t AS x LEFT JOIN u ON x.id = u.id CROSS JOIN v WHERE a = 1")
    else {
        panic!()
    };
    assert_eq!(sel.projections.len(), 4);
    assert!(matches!(&sel.projections[0], Projection::Expr { expr, alias: None } if col(expr) == (None, "a".to_string())));
    assert!(
        matches!(&sel.projections[1], Projection::Expr { expr, alias: Some(a) } if col(expr) == (some("t"), "b".to_string()) && a == "bb")
    );
    assert!(matches!(&sel.projections[2], Projection::Expr { expr, .. } if col(expr) == (some("t"), "c".to_string())));
    assert!(matches!(&sel.projections[3], Projection::QualifiedStar(q) if q == "t"));
    assert_eq!(sel.from.len(), 1);
    assert_eq!(table(&sel.from[0]), (some("s"), "t".to_string(), some("x")));
    assert_eq!(sel.joins.len(), 2);
    assert_eq!(sel.joins[0].kind, JoinKind::Left);
    assert_eq!(table(&sel.joins[0].table), (None, "u".to_string(), None));
    assert_eq!(other(sel.joins[0].on.as_ref().unwrap()), "x.id = u.id");
    assert_eq!(sel.joins[1].kind, JoinKind::Cross);
    assert!(sel.joins[1].on.is_none());
    assert_eq!(other(sel.where_clause.as_ref().unwrap()), "a = 1");
    assert!(sel.cte_names.is_empty());
}

#[test]
fn derived_tables_and_ctes() {
    let StatementKind::Select(sel) = kind("WITH c AS (SELECT 1), d AS (SELECT 2) SELECT * FROM c, (SELECT 3) AS sq")
    else {
        panic!()
    };
    assert_eq!(sel.cte_names, vec!["c".to_string(), "d".to_string()]);
    assert!(matches!(sel.projections[0], Projection::Star));
    assert_eq!(table(&sel.from[0]), (None, "c".to_string(), None));
    assert_eq!(table(&sel.from[1]), (some("<subq>"), "sq".to_string(), some("sq")));
}

#[test]
fn set_operations_stay_unknown() {
    assert!(matches!(kind("SELECT 1 UNION SELECT 2"), StatementKind::Unknown { text } if text == "SELECT 1 UNION SELECT 2"));
}

#[test]
fn dml() {
    let StatementKind::Insert(i) = kind("INSERT INTO s.t (a, b) VALUES (1, 2)") else { panic!() };
    assert_eq!(table(&i.table), (some("s"), "t".to_string(), None));
    assert_eq!(i.columns, vec!["a".to_string(), "b".to_string()]);

    let StatementKind::Update(u) = kind("UPDATE t SET a = u.b + 1 FROM u WHERE t.id = u.id") else { panic!() };
    assert_eq!(table(&u.table), (None, "t".to_string(), None));
    assert_eq!(u.assignments.len(), 1);
    assert_eq!(u.assignments[0].0, "a");
    assert_eq!(other(&u.assignments[0].1), "u.b + 1");
    assert_eq!(other(u.where_clause.as_ref().unwrap()), "t.id = u.id");
    assert_eq!(u.from_tables.len(), 1);
    assert_eq!(u.from_tables[0].name, "u");

    let StatementKind::Delete(d) = kind("DELETE FROM t USING u, v WHERE t.id = u.id") else { panic!() };
    assert_eq!(d.table.name, "t");
    let using: Vec<String> = d.using_tables.iter().map(|t| t.name.clone()).collect();
    assert_eq!(using, vec!["u".to_string(), "v".to_string()]);
    assert_eq!(other(d.where_clause.as_ref().unwrap()), "t.id = u.id");
}

#[test]
fn ddl() {
    let StatementKind::CreateTable(c) =
        kind("CREATE TABLE IF NOT EXISTS s.t (id INT PRIMARY KEY, name TEXT NOT NULL DEFAULT 'x', note TEXT UNIQUE)")
    else {
        panic!()
    };
    assert!(c.if_not_exists);
    assert_eq!(table(&c.table), (some("s"), "t".to_string(), None));
    let cols: Vec<(String, String, bool, Option<String>)> =
        c.columns.iter().map(|d| (d.name.clone(), d.sql_type.clone(), d.nullable, d.default.clone())).collect();
    assert_eq!(
        cols,
        vec![
            ("id".to_string(), "INT".to_string(), false, None),
            ("name".to_string(), "TEXT".to_string(), false, some("'x'")),
            ("note".to_string(), "TEXT".to_string(), true, None),
        ]
    );
    let StatementKind::AlterTable(a) = kind("ALTER TABLE a.b.c ADD COLUMN d INT") else { panic!() };
    assert_eq!(table(&a.table), (None, "a.b.c".to_string(), None));
    let StatementKind::DropTable(d) = kind("DROP TABLE IF EXISTS a, s.b") else { panic!() };
    assert!(d.if_exists);
    let names: Vec<(Option<String>, String)> = d.tables.iter().map(|t| (t.schema.clone(), t.name.clone())).collect();
    assert_eq!(names, vec![(None, "a".to_string()), (some("s"), "b".to_string())]);
}

#[test]
fn other_sql_statements_keep_their_text() {
    assert!(matches!(kind("COMMIT"), StatementKind::Unknown { text } if text == "COMMIT"));
    assert!(matches!(kind("DROP VIEW v"), StatementKind::Unknown { text } if text == "DROP VIEW v"));
}

#[test]
fn a_bad_chunk_does_not_poison_the_rest() {
    let chunks = vec![
        ("SELECT a FROM t".to_string(), TextRange::new(0, 15)),
        ("SELEC oops".to_string(), TextRange::new(16, 26)),
        ("SELECT 1; SELECT 2".to_string(), TextRange::new(27, 45)),
    ];
    let pf = sp_parse::parse(&chunks, Dialect::Generic);
    assert_eq!(pf.statements.len(), 4);
    assert!(matches!(pf.statements[0].kind, StatementKind::Select(_)));
    assert!(matches!(&pf.statements[1].kind, StatementKind::Unknown { text } if text == "SELEC oops"));
    assert_eq!((pf.statements[1].range.start(), pf.statements[1].range.end()), (16, 26));
    assert!(matches!(pf.statements[2].kind, StatementKind::Select(_)));
    assert!(matches!(pf.statements[3].kind, StatementKind::Select(_)));
    assert_eq!(pf.statements[3].range.start(), 27);
    assert_eq!(pf.errors.len(), 1);
    assert!(pf.errors[0].message.starts_with("sql parser error"), "{}", pf.errors[0].message);
    assert_eq!((pf.errors[0].range.start(), pf.errors[0].range.end()), (16, 26));
}

#[test]
fn dialects_differ() {
    // Backticks quote identifiers in MySQL but not in Postgres.
    let my = one("SELECT `a` FROM t", Dialect::MySql);
    assert!(my.errors.is_empty());
    let pg = one("SELECT `a` FROM t", Dialect::Postgres);
    assert_eq!(pg.errors.len(), 1);
}

#[test]
fn document_parse_sends_other_dialects_to_sqlparser() {
    let chunks = vec![("SELECT a FROM t".to_string(), TextRange::new(0, 15))];
    let pf = document::parse(&chunks, Dialect::SQLite, None);
    assert_eq!(pf.statements.len(), 1);
    assert!(matches!(pf.statements[0].kind, StatementKind::Select(_)));
    let pf = document::parse(&chunks, Dialect::MsSql, Some(&vec![]));
    assert!(pf.errors.is_empty());
}

#[test]
fn document_parse_sends_postgres_to_the_postgres_trees() {
    let chunks = vec![("VACUUM".to_string(), TextRange::new(0, 6))];
    let trees = vec![Ok(vec![dsl_sql::parse::pg_node::PgNode::Other])];
    let pf = document::parse(&chunks, Dialect::Postgres, Some(&trees));
    assert!(matches!(&pf.statements[0].kind, StatementKind::Unknown { text } if text == "VACUUM"));
}

#[test]
fn document_parse_without_the_postgres_parser_uses_sqlparser() {
    let chunks = vec![("SELECT a FROM t".to_string(), TextRange::new(0, 15))];
    let pf = document::parse(&chunks, Dialect::Postgres, None);
    assert!(pf.errors.is_empty());
    assert!(matches!(pf.statements[0].kind, StatementKind::Select(_)));
}

#[test]
fn object_names_split_into_schema_and_table() {
    assert_eq!(split_object_name(&vec!["s".to_string(), "t".to_string()]), (some("s"), "t".to_string()));
    assert_eq!(split_object_name(&vec!["t".to_string()]), (None, "t".to_string()));
    assert_eq!(
        split_object_name(&vec!["a".to_string(), "b".to_string(), "c".to_string()]),
        (None, "a.b.c".to_string())
    );
    assert_eq!(split_object_name(&vec![]), (None, String::new()));
}

#[test]
fn compound_identifiers() {
    assert_eq!(col(&expr(&SpExpr::CompoundIdentifier(vec!["only".to_string()]))), (some("only"), "only".to_string()));
    assert_eq!(col(&expr(&SpExpr::CompoundIdentifier(vec![]))), (None, String::new()));
    assert_eq!(other(&expr(&SpExpr::Other("1 + 2".to_string()))), "1 + 2");
}

#[test]
fn each_dialect_picks_its_sqlparser_dialect() {
    assert_eq!(pick(Dialect::Postgres), SqlpDialect::PostgreSql);
    assert_eq!(pick(Dialect::MySql), SqlpDialect::MySql);
    assert_eq!(pick(Dialect::SQLite), SqlpDialect::SQLite);
    assert_eq!(pick(Dialect::MsSql), SqlpDialect::MsSql);
    assert_eq!(pick(Dialect::Generic), SqlpDialect::Generic);
}

#[test]
fn table_functions_with_arguments_bind_their_alias() {
    let StatementKind::Select(sel) = kind("SELECT * FROM generate_series(1, 10) AS number") else { panic!() };
    assert_eq!(sel.from.len(), 1);
    assert_eq!(table(&sel.from[0]), (some("<func>"), "number".to_string(), some("number")));
    let StatementKind::Select(sel) = kind("SELECT * FROM s.t AS x") else { panic!() };
    assert_eq!(table(&sel.from[0]), (some("s"), "t".to_string(), some("x")));
}

fn checked(sql: &str, dialect: Dialect) -> ParsedFile {
    let chunks = vec![(sql.to_string(), TextRange::new(0, sql.len() as u32))];
    sp_parse::parse_checked(&chunks, dialect)
}

fn refused(sql: &str, dialect: Dialect) -> bool {
    let pf = checked(sql, dialect);
    let r = pf.errors.len() == 1 && pf.errors[0].message == UNSAFE_CHUNK;
    if r {
        assert!(matches!(&pf.statements[0].kind, StatementKind::Unknown { text } if text == sql));
    }
    r
}

#[test]
fn chunks_sqlparser_would_panic_on_are_refused() {
    assert!(refused("GRANT SELECT ON t TO u GRANTED BY", Dialect::Postgres));
    assert!(refused("REVOKE SELECT ON t FROM u GRANTED BY ;", Dialect::Generic));
    assert!(refused("SELECT 7 DIV", Dialect::MySql));
    assert!(refused("SELECT 7 DIV (", Dialect::MySql));
    assert!(refused("SELECT 7 DIV 2 +", Dialect::MySql));
    assert!(refused("SELECT 1 d\u{131}v", Dialect::MySql));
    assert!(refused("FLUSH RELAY LOGS FOR CHANNEL", Dialect::Generic));
    assert!(refused("FLUSH RELAY LOGS FOR CHANNEL a.", Dialect::MySql));
    assert!(refused("\u{fb02}ush relay logs for channel", Dialect::Generic));
    assert!(refused("flu\u{17f}h relay logs for channel", Dialect::MySql));
}

#[test]
fn chunks_the_guard_lets_through_get_sqlparsers_answer() {
    assert!(!refused("GRANT SELECT ON t TO u GRANTED BY admin", Dialect::Postgres));
    assert!(!refused("GRANT SELECT ON t TO u -- granted by", Dialect::Postgres));
    assert!(!refused("SELECT 'granted by' FROM t", Dialect::Postgres));
    assert!(!refused("FLUSH RELAY LOGS FOR CHANNEL c", Dialect::Generic));
    assert!(!refused("SELECT 7 DIV", Dialect::Postgres));
    let pf = checked("SELECT 7 DIV 2", Dialect::MySql);
    assert!(pf.errors.is_empty(), "{:?}", pf.errors);
    assert!(matches!(pf.statements[0].kind, StatementKind::Select(_)));
    for sql in [
        "SELECT a DIV (b + 1) AS q FROM t",
        "SELECT x FROM t WHERE a DIV 2 = 1 AND b = 2",
        "SELECT 7 DIV -2, `div` FROM t",
    ] {
        let pf = checked(sql, Dialect::MySql);
        assert!(pf.errors.is_empty(), "{sql}: {:?}", pf.errors);
        assert!(matches!(pf.statements[0].kind, StatementKind::Select(_)), "{sql}");
    }
    let StatementKind::Select(sel) = kind("SELECT granted FROM t") else { panic!() };
    assert_eq!(sel.projections.len(), 1);
}

#[test]
fn parse_gives_sqlparsers_answer_for_every_chunk_it_takes() {
    let pf = one("SELECT 7 DIV 2", Dialect::MySql);
    assert!(pf.errors.is_empty(), "{:?}", pf.errors);
    assert!(matches!(pf.statements[0].kind, StatementKind::Select(_)));
    let chunks = vec![
        ("SELECT 1".to_string(), TextRange::new(0, 8)),
        ("SELECT 7 DIV 2 +".to_string(), TextRange::new(9, 25)),
    ];
    let pf = sp_parse::parse_refusing(&chunks, Dialect::MySql, &vec![false, true]);
    assert!(matches!(pf.statements[0].kind, StatementKind::Select(_)));
    assert_eq!(pf.errors.len(), 1);
    assert_eq!(pf.errors[0].message, UNSAFE_CHUNK);
    assert_eq!((pf.errors[0].range.start(), pf.errors[0].range.end()), (9, 25));
}

#[test]
fn only_drop_table_becomes_a_drop_table() {
    assert!(matches!(kind("DROP VIEW v"), StatementKind::Unknown { text } if text == "DROP VIEW v"));
    let StatementKind::DropTable(d) = kind("DROP TABLE IF EXISTS a, s.b") else { panic!() };
    assert!(d.if_exists);
    assert_eq!(d.tables.len(), 2);
}

#[test]
fn document_parse_agrees_with_the_chosen_backend() {
    let a = "SELECT a, b.c FROM t JOIN u ON t.x = u.y WHERE a = 1";
    let b = "SELEC nonsense";
    let c = "INSERT INTO s.t (x, y) VALUES (1, 2)";
    let start_b = a.len() as u32 + 1;
    let start_c = start_b + b.len() as u32 + 1;
    let chunks = vec![
        (a.to_string(), TextRange::new(0, a.len() as u32)),
        (b.to_string(), TextRange::new(start_b, start_b + b.len() as u32)),
        (c.to_string(), TextRange::new(start_c, start_c + c.len() as u32)),
    ];
    for d in [Dialect::MySql, Dialect::SQLite, Dialect::MsSql, Dialect::Generic, Dialect::Postgres] {
        let via_document = document::parse(&chunks, d, None);
        let via_backend = sp_parse::parse(&chunks, d);
        assert_eq!(via_document.errors.len(), 1);
        assert_eq!(format!("{via_document:?}"), format!("{via_backend:?}"));
    }
    let trees = vec![
        Ok(vec![dsl_sql::parse::pg_node::PgNode::Other]),
        Err("syntax error at or near \"SELEC\"".to_string()),
        Ok(vec![dsl_sql::parse::pg_node::PgNode::Other]),
    ];
    let via_document = document::parse(&chunks, Dialect::Postgres, Some(&trees));
    let via_backend = dsl_sql::parse::pg_parse::parse(&chunks, &trees, Dialect::MySql);
    assert_eq!(via_document.errors.len(), 1);
    assert_eq!(format!("{via_document:?}"), format!("{via_backend:?}"));
}

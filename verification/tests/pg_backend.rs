//! The Postgres backend's conversion of parse trees into the internal AST.
//! Each test builds the parse tree the Postgres parser gives for the SQL
//! shown, with its byte locations.

use dsl_sql::parse::ast::{Expr, JoinKind, Projection, StatementKind, TableRef};
use dsl_sql::parse::dialect::Dialect;
use dsl_sql::parse::pg_convert::{join_kind, rangevar_to_tableref};
use dsl_sql::parse::pg_node::{
    PgAlias, PgColumnDef, PgJoinExpr, PgNode, PgRangeVar, PgResTarget, PgSelectStmt, PgTypeName, PgWithClause,
};
use dsl_sql::parse::pg_fits::doc_fits_exec;
use dsl_sql::parse::pg_parse::{offset_ranges_in_kind, parse};
use dsl_sql::parse::pg_statement::{column_def, raw_expr_string, statement};
use dsl_sql::parse::range::TextRange;

fn s(v: &str) -> PgNode {
    PgNode::String { sval: v.to_string() }
}

fn cref(parts: &[&str], location: i32) -> PgNode {
    PgNode::ColumnRef { fields: parts.iter().map(|p| if *p == "*" { PgNode::AStar } else { s(p) }).collect(), location }
}

fn rv(schema: &str, name: &str, alias: Option<&str>, location: i32) -> PgRangeVar {
    PgRangeVar {
        schemaname: schema.to_string(),
        relname: name.to_string(),
        alias: alias.map(|a| PgAlias { aliasname: a.to_string() }),
        location,
    }
}

fn target(name: &str, val: PgNode) -> PgNode {
    PgNode::ResTarget(PgResTarget { name: name.to_string(), val: Some(Box::new(val)) })
}

fn aexpr(l: PgNode, r: PgNode) -> PgNode {
    PgNode::AExpr { lexpr: Some(Box::new(l)), rexpr: Some(Box::new(r)) }
}

fn select(targets: Vec<PgNode>, from: Vec<PgNode>, where_clause: Option<PgNode>) -> PgSelectStmt {
    PgSelectStmt { target_list: targets, from_clause: from, where_clause: where_clause.map(Box::new), with_clause: None }
}

fn col(e: &Expr) -> (Option<String>, String, u32, u32) {
    match e {
        Expr::Column { qualifier, name, range } => (qualifier.clone(), name.clone(), range.start(), range.end()),
        other => panic!("not a column: {other:?}"),
    }
}

fn list(e: &Expr) -> Vec<(Option<String>, String)> {
    match e {
        Expr::List(v) => v.iter().map(|c| { let (q, n, _, _) = col(c); (q, n) }).collect(),
        other => panic!("not a list: {other:?}"),
    }
}

fn table(t: &TableRef) -> (Option<String>, String, Option<String>, u32, u32) {
    (t.schema.clone(), t.name.clone(), t.alias.clone(), t.range.start(), t.range.end())
}

fn some(v: &str) -> Option<String> {
    Some(v.to_string())
}

// SELECT id, u.name AS n FROM users u WHERE id = 1 AND lower(u.name) = 'x'
fn users_select() -> PgNode {
    PgNode::SelectStmt(Box::new(select(
        vec![target("", cref(&["id"], 7)), target("n", cref(&["u", "name"], 11))],
        vec![PgNode::RangeVar(rv("", "users", Some("u"), 30))],
        Some(PgNode::BoolExpr {
            args: vec![
                aexpr(cref(&["id"], 44), PgNode::Other),
                aexpr(PgNode::FuncCall { args: vec![cref(&["u", "name"], 61)] }, PgNode::Other),
            ],
        }),
    )))
}

#[test]
fn select_projections_from_and_where() {
    let k = statement(&users_select(), "SELECT ...");
    let StatementKind::Select(sel) = k else { panic!("not a select") };
    assert_eq!(sel.projections.len(), 2);
    match &sel.projections[0] {
        Projection::Expr { expr, alias } => {
            assert_eq!(col(expr), (None, "id".to_string(), 7, 9));
            assert!(alias.is_none());
        },
        p => panic!("{p:?}"),
    }
    match &sel.projections[1] {
        Projection::Expr { expr, alias } => {
            assert_eq!(col(expr), (some("u"), "name".to_string(), 11, 17));
            assert_eq!(alias.as_deref(), Some("n"));
        },
        p => panic!("{p:?}"),
    }
    assert_eq!(sel.from.len(), 1);
    assert_eq!(table(&sel.from[0]), (None, "users".to_string(), some("u"), 30, 35));
    assert_eq!(
        list(sel.where_clause.as_ref().unwrap()),
        vec![(None, "id".to_string()), (some("u"), "name".to_string())]
    );
    assert!(sel.joins.is_empty());
    assert!(sel.cte_names.is_empty());
}

#[test]
fn stars_and_odd_column_references() {
    let k = statement(
        &PgNode::SelectStmt(Box::new(select(
            vec![
                target("", cref(&["*"], 7)),
                target("", cref(&["t", "*"], 10)),
                target("", cref(&["a", "b", "c"], 15)),
                target("", cref(&["x"], -1)),
                PgNode::Other,
            ],
            vec![],
            None,
        ))),
        "",
    );
    let StatementKind::Select(sel) = k else { panic!() };
    assert_eq!(sel.projections.len(), 4);
    assert!(matches!(sel.projections[0], Projection::Star));
    assert!(matches!(&sel.projections[1], Projection::QualifiedStar(q) if q == "t"));
    assert!(matches!(&sel.projections[2], Projection::Expr { expr: Expr::Other(t), .. } if t.is_empty()));
    match &sel.projections[3] {
        Projection::Expr { expr, .. } => assert_eq!(col(expr), (None, "x".to_string(), 0, 0)),
        p => panic!("{p:?}"),
    }
}

#[test]
fn projection_of_an_expression_lists_its_columns() {
    // SELECT CASE WHEN a IS NULL THEN b ELSE c END, 1
    let case = PgNode::CaseExpr {
        args: vec![PgNode::CaseWhen {
            expr: Some(Box::new(PgNode::NullTest { arg: Some(Box::new(cref(&["a"], 17))) })),
            result: Some(Box::new(cref(&["b"], 32))),
        }],
        defresult: Some(Box::new(cref(&["s", "t", "c"], 39))),
    };
    let k = statement(
        &PgNode::SelectStmt(Box::new(select(vec![target("", case), target("", PgNode::Other)], vec![], None))),
        "",
    );
    let StatementKind::Select(sel) = k else { panic!() };
    match &sel.projections[0] {
        Projection::Expr { expr, .. } => assert_eq!(
            list(expr),
            vec![(None, "a".to_string()), (None, "b".to_string()), (some("s.t"), "c".to_string())]
        ),
        p => panic!("{p:?}"),
    }
    match &sel.projections[1] {
        Projection::Expr { expr, .. } => assert!(list(expr).is_empty()),
        p => panic!("{p:?}"),
    }
}

#[test]
fn sublink_columns_are_collected() {
    // WHERE x IN (SELECT y FROM t WHERE z > 0)
    let sub = PgNode::SelectStmt(Box::new(select(
        vec![target("", cref(&["y"], 0))],
        vec![PgNode::RangeVar(rv("", "t", None, 0))],
        Some(aexpr(cref(&["z"], 0), PgNode::Other)),
    )));
    let w = PgNode::SubLink { testexpr: Some(Box::new(cref(&["x"], 0))), subselect: Some(Box::new(sub)) };
    let k = statement(&PgNode::SelectStmt(Box::new(select(vec![], vec![], Some(w)))), "");
    let StatementKind::Select(sel) = k else { panic!() };
    assert_eq!(
        list(sel.where_clause.as_ref().unwrap()),
        vec![(None, "x".to_string()), (None, "y".to_string()), (None, "z".to_string())]
    );
}

#[test]
fn joins_are_unfolded() {
    // FROM a JOIN b ON a.id = b.a_id LEFT JOIN s.c cc ON true, generate_series(1,3) AS n
    let inner = PgJoinExpr {
        jointype: 1,
        larg: Some(Box::new(PgNode::RangeVar(rv("", "a", None, 5)))),
        rarg: Some(Box::new(PgNode::RangeVar(rv("", "b", None, 12)))),
        quals: Some(Box::new(aexpr(cref(&["a", "id"], 17), cref(&["b", "a_id"], 24)))),
    };
    let outer = PgJoinExpr {
        jointype: 2,
        larg: Some(Box::new(PgNode::JoinExpr(Box::new(inner)))),
        rarg: Some(Box::new(PgNode::RangeVar(rv("s", "c", Some("cc"), 40)))),
        quals: Some(Box::new(PgNode::Other)),
    };
    let k = statement(
        &PgNode::SelectStmt(Box::new(select(
            vec![],
            vec![
                PgNode::JoinExpr(Box::new(outer)),
                PgNode::RangeFunction { alias: Some(PgAlias { aliasname: "n".to_string() }) },
                PgNode::RangeSubselect { alias: None },
            ],
            None,
        ))),
        "",
    );
    let StatementKind::Select(sel) = k else { panic!() };
    assert_eq!(sel.from.len(), 2);
    assert_eq!(table(&sel.from[0]), (None, "a".to_string(), None, 5, 6));
    assert_eq!(table(&sel.from[1]), (some("<func>"), "n".to_string(), some("n"), 0, 0));
    assert_eq!(sel.joins.len(), 2);
    assert_eq!(sel.joins[0].kind, JoinKind::Inner);
    assert_eq!(table(&sel.joins[0].table), (None, "b".to_string(), None, 12, 13));
    assert_eq!(
        list(sel.joins[0].on.as_ref().unwrap()),
        vec![(some("a"), "id".to_string()), (some("b"), "a_id".to_string())]
    );
    assert_eq!(sel.joins[1].kind, JoinKind::Left);
    assert_eq!(table(&sel.joins[1].table), (some("s"), "c".to_string(), some("cc"), 42, 43));
    assert!(list(sel.joins[1].on.as_ref().unwrap()).is_empty());
}

#[test]
fn a_join_left_side_is_bound_after_earlier_from_items() {
    // FROM t, x LEFT JOIN (subquery) sq: both t and the join's left table x are bound.
    let j = PgJoinExpr {
        jointype: 6,
        larg: Some(Box::new(PgNode::RangeVar(rv("", "x", None, 8)))),
        rarg: Some(Box::new(PgNode::RangeSubselect { alias: Some(PgAlias { aliasname: "sq".to_string() }) })),
        quals: None,
    };
    let k = statement(
        &PgNode::SelectStmt(Box::new(select(
            vec![],
            vec![PgNode::RangeVar(rv("", "t", None, 5)), PgNode::JoinExpr(Box::new(j))],
            None,
        ))),
        "",
    );
    let StatementKind::Select(sel) = k else { panic!() };
    assert_eq!(sel.from.len(), 2);
    assert_eq!(sel.from[0].name, "t");
    assert_eq!(table(&sel.from[1]), (None, "x".to_string(), None, 8, 9));
    assert_eq!(sel.joins.len(), 1);
    assert_eq!(sel.joins[0].kind, JoinKind::Left);
    assert_eq!(table(&sel.joins[0].table), (some("<subq>"), "sq".to_string(), some("sq"), 0, 0));
    assert!(sel.joins[0].on.is_none());
}

#[test]
fn join_types_map_to_kinds() {
    assert_eq!(join_kind(1), JoinKind::Inner);
    assert_eq!(join_kind(2), JoinKind::Left);
    assert_eq!(join_kind(3), JoinKind::Full);
    assert_eq!(join_kind(4), JoinKind::Right);
    assert_eq!(join_kind(5), JoinKind::Inner);
    assert_eq!(join_kind(6), JoinKind::Left);
    assert_eq!(join_kind(7), JoinKind::Inner);
    assert_eq!(join_kind(0), JoinKind::Inner);
}

#[test]
fn range_var_ranges_count_bytes() {
    // `público.tabla_ñ` at byte 3: the name starts after the 8-byte schema and the dot.
    let t = rangevar_to_tableref(&rv("público", "tabla_ñ", None, 3));
    assert_eq!(table(&t), (some("público"), "tabla_ñ".to_string(), None, 12, 20));
    // SELECT * FROM public.users
    let p = rangevar_to_tableref(&rv("public", "users", None, 14));
    assert_eq!(table(&p), (some("public"), "users".to_string(), None, 21, 26));
    let u = rangevar_to_tableref(&rv("", "t", Some(""), -1));
    assert_eq!(table(&u), (None, "t".to_string(), None, 0, 0));
}

#[test]
fn ctes_are_named() {
    let mut st = select(vec![], vec![], None);
    st.with_clause = Some(PgWithClause {
        ctes: vec![PgNode::CommonTableExpr { ctename: "x".to_string() }, PgNode::Other, PgNode::CommonTableExpr {
            ctename: "y".to_string(),
        }],
    });
    let StatementKind::Select(sel) = statement(&PgNode::SelectStmt(Box::new(st)), "") else { panic!() };
    assert_eq!(sel.cte_names, vec!["x".to_string(), "y".to_string()]);
}

#[test]
fn dml_statements() {
    // INSERT INTO s.t (a, b) VALUES (1, 2)
    let ins = PgNode::InsertStmt {
        relation: Some(rv("s", "t", None, 12)),
        cols: vec![
            PgNode::ResTarget(PgResTarget { name: "a".to_string(), val: None }),
            PgNode::ResTarget(PgResTarget { name: "b".to_string(), val: None }),
        ],
    };
    let StatementKind::Insert(i) = statement(&ins, "") else { panic!() };
    assert_eq!(table(&i.table), (some("s"), "t".to_string(), None, 14, 15));
    assert_eq!(i.columns, vec!["a".to_string(), "b".to_string()]);

    // UPDATE t SET a = 1 FROM u, (SELECT 1) q WHERE t.id = u.id
    let upd = PgNode::UpdateStmt {
        relation: Some(rv("", "t", None, 7)),
        target_list: vec![target("a", PgNode::Other), target("", PgNode::Other)],
        from_clause: vec![PgNode::RangeVar(rv("", "u", None, 24)), PgNode::RangeSubselect { alias: None }],
        where_clause: Some(Box::new(aexpr(cref(&["t", "id"], 48), cref(&["u", "id"], 55)))),
    };
    let StatementKind::Update(u) = statement(&upd, "") else { panic!() };
    assert_eq!(table(&u.table), (None, "t".to_string(), None, 7, 8));
    assert_eq!(u.assignments.len(), 1);
    assert_eq!(u.assignments[0].0, "a");
    assert!(matches!(&u.assignments[0].1, Expr::Other(t) if t.is_empty()));
    assert_eq!(u.from_tables.len(), 1);
    assert_eq!(u.from_tables[0].name, "u");
    assert_eq!(list(u.where_clause.as_ref().unwrap()).len(), 2);

    // DELETE FROM t USING u WHERE t.id = u.id
    let del = PgNode::DeleteStmt {
        relation: Some(rv("", "t", None, 12)),
        using_clause: vec![PgNode::RangeVar(rv("", "u", Some("uu"), 20))],
        where_clause: None,
    };
    let StatementKind::Delete(d) = statement(&del, "") else { panic!() };
    assert_eq!(d.table.name, "t");
    assert_eq!(table(&d.using_tables[0]), (None, "u".to_string(), some("uu"), 20, 21));
    assert!(d.where_clause.is_none());
}

#[test]
fn ddl_statements() {
    // CREATE TABLE IF NOT EXISTS t (id int PRIMARY KEY, tags text[] NOT NULL DEFAULT '{}', note pg_catalog.varchar)
    let ty = |names: &[&str], dims: usize| PgTypeName {
        names: names.iter().map(|n| s(n)).collect(),
        array_bounds: (0..dims).map(|_| PgNode::Other).collect(),
    };
    let con = |contype: i32, cooked: &str| PgNode::Constraint { contype, cooked_expr: cooked.to_string() };
    let create = PgNode::CreateStmt {
        relation: Some(rv("", "t", None, 27)),
        table_elts: vec![
            PgNode::ColumnDef(PgColumnDef { colname: "id".to_string(), col_type: Some(ty(&["int4"], 0)), constraints: vec![con(7, "")] }),
            PgNode::Other,
            PgNode::ColumnDef(PgColumnDef {
                colname: "tags".to_string(),
                col_type: Some(ty(&["text"], 1)),
                constraints: vec![con(2, ""), con(3, ""), con(3, "'{}'::text[]")],
            }),
            PgNode::ColumnDef(PgColumnDef {
                colname: "note".to_string(),
                col_type: Some(ty(&["pg_catalog", "varchar"], 0)),
                constraints: vec![],
            }),
            PgNode::ColumnDef(PgColumnDef { colname: "x".to_string(), col_type: None, constraints: vec![con(1, "")] }),
        ],
        if_not_exists: true,
    };
    let StatementKind::CreateTable(c) = statement(&create, "") else { panic!() };
    assert!(c.if_not_exists);
    assert_eq!(c.table.name, "t");
    let cols: Vec<(String, String, bool, Option<String>)> =
        c.columns.iter().map(|d| (d.name.clone(), d.sql_type.clone(), d.nullable, d.default.clone())).collect();
    assert_eq!(
        cols,
        vec![
            ("id".to_string(), "int4".to_string(), false, None),
            ("tags".to_string(), "text[]".to_string(), false, some("'{}'::text[]")),
            ("note".to_string(), "pg_catalog.varchar".to_string(), true, None),
            ("x".to_string(), String::new(), true, None),
        ]
    );

    let StatementKind::AlterTable(a) = statement(&PgNode::AlterTableStmt { relation: None }, "") else { panic!() };
    assert_eq!(table(&a.table), (None, String::new(), None, 0, 0));

    // DROP TABLE IF EXISTS a, s.b
    let drop = PgNode::DropStmt {
        remove_type: 42,
        objects: vec![
            PgNode::List { items: vec![s("a")] },
            PgNode::List { items: vec![s("s"), s("b")] },
            PgNode::List { items: vec![s("x"), s("y"), s("z")] },
            PgNode::Other,
        ],
        missing_ok: true,
    };
    let StatementKind::DropTable(d) = statement(&drop, "") else { panic!() };
    assert!(d.if_exists);
    let names: Vec<(Option<String>, String)> = d.tables.iter().map(|t| (t.schema.clone(), t.name.clone())).collect();
    assert_eq!(names, vec![(None, "a".to_string()), (some("s"), "b".to_string())]);

    // DROP VIEW v: only DROP TABLE is modelled; other drops keep their text.
    let drop_view = PgNode::DropStmt { remove_type: 51, objects: vec![PgNode::List { items: vec![s("v")] }], missing_ok: false };
    let k = statement(&drop_view, "DROP VIEW v");
    assert!(matches!(k, StatementKind::Unknown { text } if text == "DROP VIEW v"));
}

#[test]
fn casts_and_coalesce_expose_their_columns() {
    // SELECT 1 FROM t WHERE a::int = 1 OR coalesce(b, 0) > 0
    let where_clause = PgNode::BoolExpr {
        args: vec![
            aexpr(PgNode::TypeCast { arg: Some(Box::new(cref(&["a"], 22))) }, PgNode::Other),
            aexpr(PgNode::CoalesceExpr { args: vec![cref(&["b"], 43), PgNode::Other] }, PgNode::Other),
        ],
    };
    let k = statement(
        &PgNode::SelectStmt(Box::new(select(
            vec![],
            vec![PgNode::RangeVar(rv("", "t", None, 14))],
            Some(where_clause),
        ))),
        "",
    );
    let StatementKind::Select(sel) = k else { panic!() };
    assert_eq!(list(sel.where_clause.as_ref().unwrap()), vec![(None, "a".to_string()), (None, "b".to_string())]);
    let more = PgNode::BoolExpr {
        args: vec![
            PgNode::MinMaxExpr { args: vec![cref(&["c"], 1)] },
            PgNode::BooleanTest { arg: Some(Box::new(cref(&["d"], 1))) },
            PgNode::RowExpr { args: vec![cref(&["e"], 1)] },
            PgNode::AArrayExpr { elements: vec![cref(&["f"], 1)] },
            PgNode::CollateClause { arg: Some(Box::new(cref(&["g"], 1))) },
            PgNode::AIndirection { arg: Some(Box::new(cref(&["h"], 1))) },
        ],
    };
    let k = statement(&PgNode::SelectStmt(Box::new(select(vec![], vec![], Some(more)))), "");
    let StatementKind::Select(sel) = k else { panic!() };
    let names: Vec<String> = list(sel.where_clause.as_ref().unwrap()).into_iter().map(|(_, n)| n).collect();
    assert_eq!(names, vec!["c", "d", "e", "f", "g", "h"]);
}

#[test]
fn default_and_constraint_texts() {
    assert_eq!(raw_expr_string(&"now()".to_string()), "now()");
    assert_eq!(raw_expr_string(&String::new()), "");
    let d = column_def(&PgColumnDef {
        colname: "c".to_string(),
        col_type: Some(PgTypeName { names: vec![s("int8")], array_bounds: vec![PgNode::Other, PgNode::Other] }),
        constraints: vec![PgNode::Constraint { contype: 3, cooked_expr: "1".to_string() }, PgNode::Constraint {
            contype: 3,
            cooked_expr: "2".to_string(),
        }],
    });
    assert_eq!(d.sql_type, "int8[][]");
    assert_eq!(d.default.as_deref(), Some("2"));
    assert!(d.nullable);
}

#[test]
fn other_statements_keep_their_text() {
    let k = statement(&PgNode::Other, "VACUUM t");
    assert!(matches!(k, StatementKind::Unknown { text } if text == "VACUUM t"));
}

#[test]
fn offsets_move_column_ranges_into_the_document() {
    let mut k = statement(&users_select(), "");
    offset_ranges_in_kind(&mut k, 100);
    let StatementKind::Select(sel) = k else { panic!() };
    match &sel.projections[0] {
        Projection::Expr { expr, .. } => assert_eq!(col(expr), (None, "id".to_string(), 107, 109)),
        p => panic!("{p:?}"),
    }
    // Table ranges move too; the WHERE columns carry no range and stay empty.
    assert_eq!(table(&sel.from[0]), (None, "users".to_string(), some("u"), 130, 135));
    match &sel.where_clause {
        Some(Expr::List(v)) => assert_eq!(col(&v[0]).2, 0),
        other => panic!("{other:?}"),
    }
}

#[test]
fn offsets_reach_into_operators_and_calls() {
    let e = Expr::BinaryOp {
        op: "=".to_string(),
        left: Box::new(Expr::Column { qualifier: None, name: "a".to_string(), range: TextRange::new(1, 2) }),
        right: Box::new(Expr::Call {
            name: "f".to_string(),
            args: vec![
                Expr::Column { qualifier: None, name: "b".to_string(), range: TextRange::new(5, 6) },
                Expr::Column { qualifier: None, name: "c".to_string(), range: TextRange::empty() },
            ],
        }),
    };
    let mut k = StatementKind::Delete(dsl_sql::parse::ast::DeleteStmt {
        table: TableRef::unnamed(),
        where_clause: Some(e),
        using_tables: vec![],
    });
    offset_ranges_in_kind(&mut k, 10);
    let StatementKind::Delete(d) = k else { panic!() };
    let Some(Expr::BinaryOp { left, right, .. }) = d.where_clause else { panic!() };
    assert_eq!(col(&left).2, 11);
    let Expr::Call { args, .. } = *right else { panic!() };
    assert_eq!(col(&args[0]).2, 15);
    assert_eq!(col(&args[1]).2, 0);
}

#[test]
fn offsets_move_every_table_and_column_definition() {
    // UPDATE t SET ... FROM u; CREATE TABLE t (id int); DROP TABLE a
    let upd = statement(
        &PgNode::UpdateStmt {
            relation: Some(rv("", "t", None, 7)),
            target_list: vec![],
            from_clause: vec![PgNode::RangeVar(rv("", "u", None, 20))],
            where_clause: None,
        },
        "",
    );
    let mut k = upd;
    offset_ranges_in_kind(&mut k, 100);
    let StatementKind::Update(u) = k else { panic!() };
    assert_eq!(table(&u.table).3, 107);
    assert_eq!(table(&u.from_tables[0]).3, 120);

    let mut k = StatementKind::DropTable(dsl_sql::parse::ast::DropTableStmt {
        tables: vec![TableRef { schema: None, name: "a".to_string(), alias: None, range: TextRange::new(11, 12) }, TableRef::unnamed()],
        if_exists: false,
    });
    offset_ranges_in_kind(&mut k, 5);
    let StatementKind::DropTable(d) = k else { panic!() };
    assert_eq!((table(&d.tables[0]).3, table(&d.tables[0]).4), (16, 17));
    assert_eq!((table(&d.tables[1]).3, table(&d.tables[1]).4), (0, 0));

    let mut k = StatementKind::Select(dsl_sql::parse::ast::SelectStmt {
        where_clause: Some(Expr::List(vec![Expr::Column { qualifier: None, name: "a".to_string(), range: TextRange::new(2, 3) }])),
        ..Default::default()
    });
    offset_ranges_in_kind(&mut k, 10);
    let StatementKind::Select(sel) = k else { panic!() };
    let Some(Expr::List(v)) = &sel.where_clause else { panic!() };
    assert_eq!((col(&v[0]).2, col(&v[0]).3), (12, 13));
}

#[test]
fn parse_assembles_chunks() {
    let chunks = vec![
        ("SELECT id, u.name AS n FROM users u".to_string(), TextRange::new(0, 40)),
        ("-- only a comment".to_string(), TextRange::new(41, 58)),
        ("SELEC oops".to_string(), TextRange::new(59, 69)),
        ("VACUUM; VACUUM".to_string(), TextRange::new(70, 84)),
    ];
    let results = vec![
        Ok(vec![users_select()]),
        Ok(vec![PgNode::Missing]),
        Err("syntax error at or near \"SELEC\"".to_string()),
        Ok(vec![PgNode::Other, PgNode::Missing, PgNode::Other]),
    ];
    let pf = parse(&chunks, &results, Dialect::Postgres);
    assert_eq!(pf.statements.len(), 5);
    let StatementKind::Select(sel) = &pf.statements[0].kind else { panic!() };
    match &sel.projections[0] {
        Projection::Expr { expr, .. } => assert_eq!(col(expr).2, 7),
        p => panic!("{p:?}"),
    }
    assert!(matches!(&pf.statements[1].kind, StatementKind::Unknown { text } if text == "-- only a comment"));
    assert_eq!((pf.statements[1].range.start(), pf.statements[1].range.end()), (41, 58));
    assert!(matches!(&pf.statements[2].kind, StatementKind::Unknown { text } if text == "SELEC oops"));
    assert!(matches!(&pf.statements[3].kind, StatementKind::Unknown { text } if text == "VACUUM; VACUUM"));
    assert_eq!(pf.statements[4].range.start(), 70);
    assert_eq!(pf.errors.len(), 1);
    assert_eq!(pf.errors[0].message, "pg_query: syntax error at or near \"SELEC\"");
    assert_eq!((pf.errors[0].range.start(), pf.errors[0].range.end()), (59, 69));
}

#[test]
fn parse_moves_projection_ranges_by_the_chunk_start() {
    let chunks = vec![("SELECT id, u.name AS n FROM users u".to_string(), TextRange::new(1000, 1040))];
    let pf = parse(&chunks, &vec![Ok(vec![users_select()])], Dialect::Postgres);
    let StatementKind::Select(sel) = &pf.statements[0].kind else { panic!() };
    match &sel.projections[1] {
        Projection::Expr { expr, .. } => assert_eq!(col(expr), (some("u"), "name".to_string(), 1011, 1017)),
        p => panic!("{p:?}"),
    }
}

#[test]
fn doc_fits_checks_the_byte_ranges_exactly() {
    let text = "SELECT id, u.name AS n FROM users u".to_string();
    assert!(doc_fits_exec(&vec![(text.clone(), TextRange::new(0, 40))], &vec![Ok(vec![users_select()])]));
    assert!(doc_fits_exec(&vec![(text.clone(), TextRange::new(5, 40))], &vec![Err("x".to_string())]));
    // The FROM table spans 30..35 in its chunk: moved past u32::MAX.
    let far = u32::MAX - 20;
    assert!(!doc_fits_exec(&vec![(text.clone(), TextRange::new(far, far + 10))], &vec![Ok(vec![users_select()])]));
    // A range var far into its chunk still ends within u32.
    let bad = PgNode::SelectStmt(Box::new(select(vec![], vec![PgNode::RangeVar(rv("", "users", None, i32::MAX))], None)));
    assert!(doc_fits_exec(&vec![(text.clone(), TextRange::new(0, 40))], &vec![Ok(vec![bad])]));
    let ins = PgNode::InsertStmt { relation: Some(rv("", "t", None, 7)), cols: vec![] };
    assert!(!doc_fits_exec(&vec![(text, TextRange::new(u32::MAX - 7, u32::MAX))], &vec![Ok(vec![ins])]));
}

#[test]
fn two_shifts_agree_with_one_and_zero_changes_nothing() {
    let mut k1 = statement(&users_select(), "");
    let mut k2 = statement(&users_select(), "");
    let k0 = statement(&users_select(), "");
    offset_ranges_in_kind(&mut k1, 100);
    offset_ranges_in_kind(&mut k1, 23);
    offset_ranges_in_kind(&mut k2, 123);
    assert_eq!(format!("{k1:?}"), format!("{k2:?}"));
    let mut k3 = statement(&users_select(), "");
    offset_ranges_in_kind(&mut k3, 0);
    assert_eq!(format!("{k3:?}"), format!("{k0:?}"));
}

#[test]
fn the_postgres_path_ignores_the_dialect() {
    let chunks = vec![("SELECT id, u.name AS n FROM users u".to_string(), TextRange::new(10, 50))];
    let results = vec![Ok(vec![users_select()])];
    let a = parse(&chunks, &results, Dialect::Postgres);
    let b = parse(&chunks, &results, Dialect::MySql);
    assert_eq!(format!("{a:?}"), format!("{b:?}"));
}

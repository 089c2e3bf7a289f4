//! PL/pgSQL body walking. Each test builds the JSON dump that the
//! PL/pgSQL parser gives for the function shown above it, and checks the
//! statements the walker lists.

use dsl_sql::parse::json::Json;
use dsl_sql::parse::plpgsql::{parse, PlpgsqlBody, PlpgsqlStmtKind};

fn obj(members: Vec<(&str, Json)>) -> Json {
    Json::Object(members.into_iter().map(|(k, v)| (k.to_string(), v)).collect())
}

fn num(n: u64) -> Json {
    Json::Number(Some(n))
}

fn text(s: &str) -> Json {
    Json::Str(s.to_string())
}

fn expr(query: &str) -> Json {
    obj(vec![("PLpgSQL_expr", obj(vec![("query", text(query)), ("parseMode", num(2))]))])
}

fn stmt(kind: &str, lineno: u64, mut rest: Vec<(&str, Json)>) -> Json {
    let mut members = vec![("lineno", num(lineno))];
    members.append(&mut rest);
    obj(vec![(kind, obj(members))])
}

fn function(action: Json) -> Json {
    let found = obj(vec![(
        "PLpgSQL_var",
        obj(vec![
            ("refname", text("found")),
            ("datatype", obj(vec![("PLpgSQL_type", obj(vec![("typname", text("UNKNOWN"))]))])),
        ]),
    )]);
    Json::Array(vec![obj(vec![(
        "PLpgSQL_function",
        obj(vec![("datums", Json::Array(vec![found])), ("action", action)]),
    )])])
}

fn has(body: &PlpgsqlBody, k: PlpgsqlStmtKind) -> bool {
    body.statements.iter().any(|s| s.kind == k)
}

fn count_of(body: &PlpgsqlBody, k: PlpgsqlStmtKind) -> usize {
    body.statements.iter().filter(|s| s.kind == k).count()
}

// CREATE FUNCTION f() RETURNS int AS $$
// BEGIN
//   RETURN 42;
// END $$ LANGUAGE plpgsql;
#[test]
fn parses_trivial_body() {
    let tree = function(stmt(
        "PLpgSQL_stmt_block",
        2,
        vec![("body", Json::Array(vec![stmt("PLpgSQL_stmt_return", 3, vec![("expr", expr("42"))])]))],
    ));
    let body = parse(Ok(tree)).expect("parse");
    assert!(has(&body, PlpgsqlStmtKind::Block));
    assert!(has(&body, PlpgsqlStmtKind::Return));
}

// CREATE FUNCTION g(x int) RETURNS int AS $$
// BEGIN
//   IF x > 0 THEN
//     RAISE NOTICE 'pos';
//   ELSE
//     RAISE EXCEPTION 'neg';
//   END IF;
//   RETURN x;
// END $$ LANGUAGE plpgsql;
#[test]
fn walks_nested_if_branches() {
    let if_stmt = stmt(
        "PLpgSQL_stmt_if",
        3,
        vec![
            ("cond", expr("x > 0")),
            (
                "then_body",
                Json::Array(vec![stmt(
                    "PLpgSQL_stmt_raise",
                    4,
                    vec![("elog_level", num(18)), ("message", text("pos"))],
                )]),
            ),
            (
                "else_body",
                Json::Array(vec![stmt(
                    "PLpgSQL_stmt_raise",
                    6,
                    vec![("elog_level", num(21)), ("message", text("neg"))],
                )]),
            ),
        ],
    );
    let tree = function(stmt(
        "PLpgSQL_stmt_block",
        2,
        vec![("body", Json::Array(vec![if_stmt, stmt("PLpgSQL_stmt_return", 8, vec![("expr", expr("x"))])]))],
    ));
    let body = parse(Ok(tree)).expect("parse");
    assert_eq!(count_of(&body, PlpgsqlStmtKind::Raise), 2, "both RAISE arms must be visited");
    assert!(has(&body, PlpgsqlStmtKind::If));
}

// CREATE FUNCTION h() RETURNS int AS $$
// DECLARE i int := 0;
// BEGIN
//   LOOP
//     i := i + 1;
//     EXIT WHEN i > 3;
//   END LOOP;
//   RETURN i;
// END $$ LANGUAGE plpgsql;
#[test]
fn captures_loop_body() {
    let loop_stmt = stmt(
        "PLpgSQL_stmt_loop",
        4,
        vec![(
            "body",
            Json::Array(vec![
                stmt("PLpgSQL_stmt_assign", 5, vec![("varno", num(1)), ("expr", expr("i := i + 1"))]),
                stmt("PLpgSQL_stmt_exit", 6, vec![("is_exit", Json::Bool(true)), ("cond", expr("i > 3"))]),
            ]),
        )],
    );
    let tree = function(stmt(
        "PLpgSQL_stmt_block",
        3,
        vec![("body", Json::Array(vec![loop_stmt, stmt("PLpgSQL_stmt_return", 8, vec![("expr", expr("i"))])]))],
    ));
    let body = parse(Ok(tree)).expect("parse");
    assert!(has(&body, PlpgsqlStmtKind::Loop));
    assert!(has(&body, PlpgsqlStmtKind::Assign));
    assert!(has(&body, PlpgsqlStmtKind::Exit));
}

// CREATE FUNCTION e() RETURNS void AS $$
// BEGIN
//   RAISE EXCEPTION 'boom';
// EXCEPTION WHEN OTHERS THEN
//   RAISE NOTICE 'caught';
// END $$ LANGUAGE plpgsql;
#[test]
fn captures_exception_handlers() {
    let handler = obj(vec![(
        "PLpgSQL_exception",
        obj(vec![
            ("lineno", num(4)),
            (
                "action",
                Json::Array(vec![stmt(
                    "PLpgSQL_stmt_raise",
                    5,
                    vec![("elog_level", num(18)), ("message", text("caught"))],
                )]),
            ),
        ]),
    )]);
    let inner = stmt(
        "PLpgSQL_stmt_block",
        2,
        vec![
            (
                "body",
                Json::Array(vec![stmt(
                    "PLpgSQL_stmt_raise",
                    3,
                    vec![("elog_level", num(21)), ("message", text("boom"))],
                )]),
            ),
            ("exceptions", obj(vec![("PLpgSQL_exception_block", obj(vec![("exc_list", Json::Array(vec![handler]))]))])),
        ],
    );
    // A function returning void gets an implicit RETURN after its block.
    let tree = function(stmt(
        "PLpgSQL_stmt_block",
        0,
        vec![("body", Json::Array(vec![inner, stmt("PLpgSQL_stmt_return", 0, vec![])]))],
    ));
    let body = parse(Ok(tree)).expect("parse");
    let raise_count = body.statements.iter().filter(|s| s.kind == PlpgsqlStmtKind::Raise).count();
    assert_eq!(raise_count, 2, "main + handler RAISE must both appear");
}

#[test]
fn lists_statements_in_document_order_with_lines() {
    let tree = function(stmt(
        "PLpgSQL_stmt_block",
        2,
        vec![("body", Json::Array(vec![stmt("PLpgSQL_stmt_return", 3, vec![("expr", expr("42"))])]))],
    ));
    let body = parse(Ok(tree)).expect("parse");
    assert_eq!(body.statements.len(), 2);
    assert_eq!(body.statements[0].kind, PlpgsqlStmtKind::Block);
    assert_eq!(body.statements[0].lineno, Some(2));
    assert_eq!(body.statements[1].kind, PlpgsqlStmtKind::Return);
    assert_eq!(body.statements[1].lineno, Some(3));
}

#[test]
fn passes_the_parser_error_on() {
    let r = parse(Err("syntax error at or near \"BEGN\"".to_string()));
    assert_eq!(r.err(), Some("syntax error at or near \"BEGN\"".to_string()));
}

#[test]
fn unknown_statement_kinds_keep_their_key() {
    let tree = function(stmt("PLpgSQL_stmt_made_up", 1, vec![]));
    let body = parse(Ok(tree)).expect("parse");
    assert_eq!(body.statements.len(), 1);
    assert_eq!(body.statements[0].kind, PlpgsqlStmtKind::Other("PLpgSQL_stmt_made_up".to_string()));
}

#[test]
fn for_loops_of_every_flavour_are_for() {
    let tree = function(stmt(
        "PLpgSQL_stmt_block",
        1,
        vec![(
            "body",
            Json::Array(vec![
                stmt("PLpgSQL_stmt_fors", 2, vec![]),
                stmt("PLpgSQL_stmt_fori", 3, vec![]),
                stmt("PLpgSQL_stmt_forq", 4, vec![]),
                stmt("PLpgSQL_stmt_foreach_a", 5, vec![]),
            ]),
        )],
    ));
    let body = parse(Ok(tree)).expect("parse");
    assert_eq!(count_of(&body, PlpgsqlStmtKind::For), 3);
    assert_eq!(count_of(&body, PlpgsqlStmtKind::ForEach), 1);
}

#[test]
fn not_an_array_gives_no_statements() {
    let body = parse(Ok(obj(vec![("PLpgSQL_function", Json::Null)]))).expect("parse");
    assert!(body.statements.is_empty());
}

// IF x > 0 THEN RAISE NOTICE 'a'; ELSIF x < 0 THEN RAISE NOTICE 'b'; END IF;
#[test]
fn walks_elsif_arms() {
    let arm = obj(vec![(
        "PLpgSQL_if_elsif",
        obj(vec![
            ("lineno", num(3)),
            ("cond", expr("x < 0")),
            ("stmts", Json::Array(vec![stmt("PLpgSQL_stmt_raise", 4, vec![])])),
        ]),
    )]);
    let if_stmt = stmt(
        "PLpgSQL_stmt_if",
        1,
        vec![
            ("cond", expr("x > 0")),
            ("then_body", Json::Array(vec![stmt("PLpgSQL_stmt_raise", 2, vec![])])),
            ("elsif_list", Json::Array(vec![arm])),
        ],
    );
    let body = parse(Ok(function(if_stmt))).expect("parse");
    let got: Vec<(PlpgsqlStmtKind, Option<u32>)> = body.statements.iter().map(|s| (s.kind.clone(), s.lineno)).collect();
    assert_eq!(
        got,
        vec![
            (PlpgsqlStmtKind::If, Some(1)),
            (PlpgsqlStmtKind::Raise, Some(2)),
            (PlpgsqlStmtKind::Raise, Some(4)),
        ]
    );
}

// CASE x WHEN 1 THEN y := 2; ELSE RAISE EXCEPTION 'no'; END CASE;
#[test]
fn walks_case_arms_and_else() {
    let arm = obj(vec![(
        "PLpgSQL_case_when",
        obj(vec![
            ("lineno", num(2)),
            ("expr", expr("1")),
            ("stmts", Json::Array(vec![stmt("PLpgSQL_stmt_assign", 3, vec![])])),
        ]),
    )]);
    let case_stmt = stmt(
        "PLpgSQL_stmt_case",
        1,
        vec![
            ("t_expr", expr("x")),
            ("case_when_list", Json::Array(vec![arm])),
            ("have_else", Json::Bool(true)),
            ("else_stmts", Json::Array(vec![stmt("PLpgSQL_stmt_raise", 5, vec![])])),
        ],
    );
    let body = parse(Ok(function(case_stmt))).expect("parse");
    let got: Vec<(PlpgsqlStmtKind, Option<u32>)> = body.statements.iter().map(|s| (s.kind.clone(), s.lineno)).collect();
    assert_eq!(
        got,
        vec![
            (PlpgsqlStmtKind::Case, Some(1)),
            (PlpgsqlStmtKind::Assign, Some(3)),
            (PlpgsqlStmtKind::Raise, Some(5)),
        ]
    );
}

//! PL/pgSQL function body walker.
//!
//! The PL/pgSQL parser dumps a function body as a JSON tree. This module
//! walks that tree and lists the statements it holds -- statement kind
//! and source line -- in document order, descending into nested blocks,
//! `IF`/`ELSIF`/`ELSE` and `CASE` arms, loop bodies and exception
//! handlers.

use vstd::prelude::*;
use crate::parse::json::{
    json_get, json_get_array, lemma_get_array_decreases, lemma_get_decreases, Json,
};
use crate::text::str_eq;
use vstd::string::StringExecFns;

verus! {

/// One statement inside a PL/pgSQL function body.
#[derive(Debug, Clone, PartialEq, Eq)]
pub struct PlpgsqlStmt {
    pub kind: PlpgsqlStmtKind,
    /// 1-based source line where the statement starts, when the parser
    /// emitted one.
    pub lineno: Option<u32>,
}

#[derive(Debug, Clone, PartialEq, Eq)]
pub enum PlpgsqlStmtKind {
    Block,
    Assign,
    If,
    Case,
    Loop,
    While,
    For,
    ForEach,
    Exit,
    Return,
    ReturnNext,
    ReturnQuery,
    Raise,
    Assert,
    Perform,
    ExecSql,
    ExecuteSql,
    GetDiag,
    Open,
    Fetch,
    Close,
    Commit,
    Rollback,
    Call,
    Other(String),
}

#[derive(Debug, Clone, Default)]
pub struct PlpgsqlBody {
    pub statements: Vec<PlpgsqlStmt>,
}

/// The statement kind a parser node name stands for, when it is one of
/// the modelled kinds.
pub open spec fn known_kind(key: Seq<char>) -> Option<PlpgsqlStmtKind> {
    if key == "PLpgSQL_stmt_block"@ {
        Some(PlpgsqlStmtKind::Block)
    } else if key == "PLpgSQL_stmt_assign"@ {
        Some(PlpgsqlStmtKind::Assign)
    } else if key == "PLpgSQL_stmt_if"@ {
        Some(PlpgsqlStmtKind::If)
    } else if key == "PLpgSQL_stmt_case"@ {
        Some(PlpgsqlStmtKind::Case)
    } else if key == "PLpgSQL_stmt_loop"@ {
        Some(PlpgsqlStmtKind::Loop)
    } else if key == "PLpgSQL_stmt_while"@ {
        Some(PlpgsqlStmtKind::While)
    } else if key == "PLpgSQL_stmt_fors"@ || key == "PLpgSQL_stmt_fori"@ || key == "PLpgSQL_stmt_forq"@ {
        Some(PlpgsqlStmtKind::For)
    } else if key == "PLpgSQL_stmt_foreach_a"@ {
        Some(PlpgsqlStmtKind::ForEach)
    } else if key == "PLpgSQL_stmt_exit"@ {
        Some(PlpgsqlStmtKind::Exit)
    } else if key == "PLpgSQL_stmt_return"@ {
        Some(PlpgsqlStmtKind::Return)
    } else if key == "PLpgSQL_stmt_return_next"@ {
        Some(PlpgsqlStmtKind::ReturnNext)
    } else if key == "PLpgSQL_stmt_return_query"@ {
        Some(PlpgsqlStmtKind::ReturnQuery)
    } else if key == "PLpgSQL_stmt_raise"@ {
        Some(PlpgsqlStmtKind::Raise)
    } else if key == "PLpgSQL_stmt_assert"@ {
        Some(PlpgsqlStmtKind::Assert)
    } else if key == "PLpgSQL_stmt_perform"@ {
        Some(PlpgsqlStmtKind::Perform)
    } else if key == "PLpgSQL_stmt_execsql"@ {
        Some(PlpgsqlStmtKind::ExecSql)
    } else if key == "PLpgSQL_stmt_dynexecute"@ {
        Some(PlpgsqlStmtKind::ExecuteSql)
    } else if key == "PLpgSQL_stmt_getdiag"@ {
        Some(PlpgsqlStmtKind::GetDiag)
    } else if key == "PLpgSQL_stmt_open"@ {
        Some(PlpgsqlStmtKind::Open)
    } else if key == "PLpgSQL_stmt_fetch"@ {
        Some(PlpgsqlStmtKind::Fetch)
    } else if key == "PLpgSQL_stmt_close"@ {
        Some(PlpgsqlStmtKind::Close)
    } else if key == "PLpgSQL_stmt_commit"@ {
        Some(PlpgsqlStmtKind::Commit)
    } else if key == "PLpgSQL_stmt_rollback"@ {
        Some(PlpgsqlStmtKind::Rollback)
    } else if key == "PLpgSQL_stmt_call"@ {
        Some(PlpgsqlStmtKind::Call)
    } else {
        None
    }
}

/// `k` is the kind for node name `key`: the modelled kind, or `Other`
/// holding the name itself.
pub open spec fn kind_matches(k: PlpgsqlStmtKind, key: Seq<char>) -> bool {
    match known_kind(key) {
        Some(known) => k == known,
        None => k matches PlpgsqlStmtKind::Other(s) && s@ == key,
    }
}

/// The statement kind for a parser node name.
pub fn classify(key: &str) -> (k: PlpgsqlStmtKind)
    ensures
        kind_matches(k, key@),
{
    if str_eq(key, "PLpgSQL_stmt_block") {
        PlpgsqlStmtKind::Block
    } else if str_eq(key, "PLpgSQL_stmt_assign") {
        PlpgsqlStmtKind::Assign
    } else if str_eq(key, "PLpgSQL_stmt_if") {
        PlpgsqlStmtKind::If
    } else if str_eq(key, "PLpgSQL_stmt_case") {
        PlpgsqlStmtKind::Case
    } else if str_eq(key, "PLpgSQL_stmt_loop") {
        PlpgsqlStmtKind::Loop
    } else if str_eq(key, "PLpgSQL_stmt_while") {
        PlpgsqlStmtKind::While
    } else if str_eq(key, "PLpgSQL_stmt_fors") || str_eq(key, "PLpgSQL_stmt_fori") || str_eq(
        key,
        "PLpgSQL_stmt_forq",
    ) {
        PlpgsqlStmtKind::For
    } else if str_eq(key, "PLpgSQL_stmt_foreach_a") {
        PlpgsqlStmtKind::ForEach
    } else if str_eq(key, "PLpgSQL_stmt_exit") {
        PlpgsqlStmtKind::Exit
    } else if str_eq(key, "PLpgSQL_stmt_return") {
        PlpgsqlStmtKind::Return
    } else if str_eq(key, "PLpgSQL_stmt_return_next") {
        PlpgsqlStmtKind::ReturnNext
    } else if str_eq(key, "PLpgSQL_stmt_return_query") {
        PlpgsqlStmtKind::ReturnQuery
    } else if str_eq(key, "PLpgSQL_stmt_raise") {
        PlpgsqlStmtKind::Raise
    } else if str_eq(key, "PLpgSQL_stmt_assert") {
        PlpgsqlStmtKind::Assert
    } else if str_eq(key, "PLpgSQL_stmt_perform") {
        PlpgsqlStmtKind::Perform
    } else if str_eq(key, "PLpgSQL_stmt_execsql") {
        PlpgsqlStmtKind::ExecSql
    } else if str_eq(key, "PLpgSQL_stmt_dynexecute") {
        PlpgsqlStmtKind::ExecuteSql
    } else if str_eq(key, "PLpgSQL_stmt_getdiag") {
        PlpgsqlStmtKind::GetDiag
    } else if str_eq(key, "PLpgSQL_stmt_open") {
        PlpgsqlStmtKind::Open
    } else if str_eq(key, "PLpgSQL_stmt_fetch") {
        PlpgsqlStmtKind::Fetch
    } else if str_eq(key, "PLpgSQL_stmt_close") {
        PlpgsqlStmtKind::Close
    } else if str_eq(key, "PLpgSQL_stmt_commit") {
        PlpgsqlStmtKind::Commit
    } else if str_eq(key, "PLpgSQL_stmt_rollback") {
        PlpgsqlStmtKind::Rollback
    } else if str_eq(key, "PLpgSQL_stmt_call") {
        PlpgsqlStmtKind::Call
    } else {
        PlpgsqlStmtKind::Other(String::from_str(key))
    }
}


/// A statement as the walk finds it: its parser node name and its line.
pub type StmtHead = (Seq<char>, Option<u32>);

/// The `lineno` member of a statement node, when it is a non-negative
/// integer (kept modulo 2^32).
pub open spec fn lineno_of(body: Json) -> Option<u32> {
    match json_get(body, "lineno"@) {
        Some(Json::Number(Some(n))) => Some(n as u32),
        _ => None,
    }
}

/// The handler list of a block: `exceptions.PLpgSQL_exception_block.exc_list`.
pub open spec fn handler_list(body: Json) -> Option<Vec<Json>> {
    match json_get(body, "exceptions"@) {
        Some(e) => match json_get(e, "PLpgSQL_exception_block"@) {
            Some(b) => json_get_array(b, "exc_list"@),
            None => None,
        },
        None => None,
    }
}

/// The statements of a statement-wrapper node, in document order: for
/// each member, the statement it names, then the statements nested in it.
pub open spec fn stmt_heads(node: Json) -> Seq<StmtHead>
    decreases node, 0nat,
{
    match node {
        Json::Object(fields) => {
            proof {
                assert(decreases_to!(node => node->Object_0));
            }
            member_heads(fields, fields@.len())
        },
        _ => Seq::<StmtHead>::empty(),
    }
}

/// The statements named by the first `k` members of a wrapper node.
pub open spec fn member_heads(fields: Vec<(String, Json)>, k: nat) -> Seq<StmtHead>
    decreases fields, k,
{
    if k == 0 || k > fields@.len() {
        Seq::<StmtHead>::empty()
    } else {
        let body = fields@[k - 1].1;
        proof {
            assert(decreases_to!(fields => fields@));
            assert(decreases_to!(fields@ => fields@[k - 1]));
            assert(decreases_to!(fields@[k - 1] => fields@[k - 1].1));
        }
        member_heads(fields, (k - 1) as nat) + seq![(fields@[k - 1].0@, lineno_of(body))] + nested_heads(body)
    }
}

/// The statements nested in one statement: its `body`, `then_body` and
/// `else_body` lists, the `stmts` of its `elsif_list` arms
/// (`PLpgSQL_if_elsif`) and `case_when_list` arms (`PLpgSQL_case_when`),
/// its `else_stmts` list, and the `action` of its exception handlers.
pub open spec fn nested_heads(body: Json) -> Seq<StmtHead>
    decreases body, 0nat,
{
    proof {
        lemma_get_array_decreases(body, "body"@);
        lemma_get_array_decreases(body, "then_body"@);
        lemma_get_array_decreases(body, "else_body"@);
        lemma_get_array_decreases(body, "elsif_list"@);
        lemma_get_array_decreases(body, "case_when_list"@);
        lemma_get_array_decreases(body, "else_stmts"@);
        lemma_handler_list_decreases(body);
    }
    let a = match json_get_array(body, "body"@) {
        Some(v) => list_heads(v, v@.len()),
        None => Seq::<StmtHead>::empty(),
    };
    let b = match json_get_array(body, "then_body"@) {
        Some(v) => list_heads(v, v@.len()),
        None => Seq::<StmtHead>::empty(),
    };
    let c = match json_get_array(body, "else_body"@) {
        Some(v) => list_heads(v, v@.len()),
        None => Seq::<StmtHead>::empty(),
    };
    let d = match json_get_array(body, "elsif_list"@) {
        Some(v) => arm_heads(v, "PLpgSQL_if_elsif"@, v@.len()),
        None => Seq::<StmtHead>::empty(),
    };
    let e = match json_get_array(body, "case_when_list"@) {
        Some(v) => arm_heads(v, "PLpgSQL_case_when"@, v@.len()),
        None => Seq::<StmtHead>::empty(),
    };
    let g = match json_get_array(body, "else_stmts"@) {
        Some(v) => list_heads(v, v@.len()),
        None => Seq::<StmtHead>::empty(),
    };
    let f = match handler_list(body) {
        Some(v) => handler_heads(v, v@.len()),
        None => Seq::<StmtHead>::empty(),
    };
    a + b + c + d + e + g + f
}

/// The statements of the first `k` elements of a statement list.
pub open spec fn list_heads(v: Vec<Json>, k: nat) -> Seq<StmtHead>
    decreases v, k,
{
    if k == 0 || k > v@.len() {
        Seq::<StmtHead>::empty()
    } else {
        proof {
            assert(decreases_to!(v => v@));
            assert(decreases_to!(v@ => v@[k - 1]));
        }
        list_heads(v, (k - 1) as nat) + stmt_heads(v@[k - 1])
    }
}

/// The `stmts` list of an arm: under its `wrapper` member when it has
/// one (`{"PLpgSQL_if_elsif": {"stmts": [..]}}`), else its own.
pub open spec fn arm_stmts(arm: Json, wrapper: Seq<char>) -> Option<Vec<Json>> {
    match json_get(arm, wrapper) {
        Some(inner) => json_get_array(inner, "stmts"@),
        None => json_get_array(arm, "stmts"@),
    }
}

pub proof fn lemma_arm_stmts_decreases(arm: Json, wrapper: Seq<char>)
    ensures
        arm_stmts(arm, wrapper) matches Some(w) ==> decreases_to!(arm => w),
{
    lemma_get_decreases(arm, wrapper);
    lemma_get_array_decreases(arm, "stmts"@);
    if let Some(inner) = json_get(arm, wrapper) {
        lemma_get_array_decreases(inner, "stmts"@);
    }
}

/// The statements of the `stmts` lists of the first `k` arms.
pub open spec fn arm_heads(v: Vec<Json>, wrapper: Seq<char>, k: nat) -> Seq<StmtHead>
    decreases v, k,
{
    if k == 0 || k > v@.len() {
        Seq::<StmtHead>::empty()
    } else {
        let arm = v@[k - 1];
        proof {
            assert(decreases_to!(v => v@));
            assert(decreases_to!(v@ => v@[k - 1]));
            lemma_arm_stmts_decreases(arm, wrapper);
        }
        arm_heads(v, wrapper, (k - 1) as nat) + match arm_stmts(arm, wrapper) {
            Some(w) => list_heads(w, w@.len()),
            None => Seq::<StmtHead>::empty(),
        }
    }
}

/// The statements of the `action` lists of the first `k` exception handlers.
pub open spec fn handler_heads(v: Vec<Json>, k: nat) -> Seq<StmtHead>
    decreases v, k,
{
    if k == 0 || k > v@.len() {
        Seq::<StmtHead>::empty()
    } else {
        let h = v@[k - 1];
        proof {
            assert(decreases_to!(v => v@));
            assert(decreases_to!(v@ => v@[k - 1]));
            lemma_get_decreases(h, "PLpgSQL_exception"@);
            if let Some(exc) = json_get(h, "PLpgSQL_exception"@) {
                lemma_get_array_decreases(exc, "action"@);
            }
        }
        handler_heads(v, (k - 1) as nat) + match json_get(h, "PLpgSQL_exception"@) {
            Some(exc) => match json_get_array(exc, "action"@) {
                Some(w) => list_heads(w, w@.len()),
                None => Seq::<StmtHead>::empty(),
            },
            None => Seq::<StmtHead>::empty(),
        }
    }
}

pub proof fn lemma_handler_list_decreases(body: Json)
    ensures
        handler_list(body) matches Some(v) ==> decreases_to!(body => v),
{
    lemma_get_decreases(body, "exceptions"@);
    if let Some(e) = json_get(body, "exceptions"@) {
        lemma_get_decreases(e, "PLpgSQL_exception_block"@);
        if let Some(b) = json_get(e, "PLpgSQL_exception_block"@) {
            lemma_get_array_decreases(b, "exc_list"@);
        }
    }
}


/// `s` is the statement found for `h`: same kind, same line.
pub open spec fn stmt_is(s: PlpgsqlStmt, h: StmtHead) -> bool {
    kind_matches(s.kind, h.0) && s.lineno == h.1
}

/// `new` is `old` followed by one statement for each of `hs`, in order.
pub open spec fn extends_with(old: Seq<PlpgsqlStmt>, new: Seq<PlpgsqlStmt>, hs: Seq<StmtHead>) -> bool {
    &&& new.len() == old.len() + hs.len()
    &&& new.subrange(0, old.len() as int) == old
    &&& forall|i: int| 0 <= i < hs.len() ==> stmt_is(#[trigger] new[old.len() + i], hs[i])
}

proof fn lemma_extends_refl(a: Seq<PlpgsqlStmt>)
    ensures
        extends_with(a, a, Seq::<StmtHead>::empty()),
{
    assert(a.subrange(0, a.len() as int) =~= a);
}

proof fn lemma_extends_trans(
    a: Seq<PlpgsqlStmt>,
    b: Seq<PlpgsqlStmt>,
    c: Seq<PlpgsqlStmt>,
    h1: Seq<StmtHead>,
    h2: Seq<StmtHead>,
)
    requires
        extends_with(a, b, h1),
        extends_with(b, c, h2),
    ensures
        extends_with(a, c, h1 + h2),
{
    assert(c.subrange(0, a.len() as int) =~= b.subrange(0, a.len() as int)) by {
        assert forall|i: int| 0 <= i < a.len() implies c[i] == b[i] by {
            assert(c.subrange(0, b.len() as int)[i] == b[i]);
        }
    }
    let h = h1 + h2;
    assert forall|i: int| 0 <= i < h.len() implies stmt_is(#[trigger] c[a.len() + i], h[i]) by {
        if i < h1.len() {
            assert(c.subrange(0, b.len() as int)[a.len() + i] == b[a.len() + i]);
            assert(stmt_is(b[a.len() + i], h1[i]));
        } else {
            let j = i - h1.len();
            assert(stmt_is(c[b.len() + j], h2[j]));
            assert(b.len() + j == a.len() + i);
        }
    }
}

fn lineno(body: &Json) -> (r: Option<u32>)
    ensures
        r == lineno_of(*body),
{
    match body.get("lineno") {
        Some(n) => match n.as_u64() {
            Some(v) => Some(v as u32),
            None => None,
        },
        None => None,
    }
}

fn get_array<'a>(j: &'a Json, key: &str) -> (r: Option<&'a Vec<Json>>)
    ensures
        match r {
            Some(v) => json_get_array(*j, key@) == Some(*v),
            None => json_get_array(*j, key@) is None,
        },
{
    match j.get(key) {
        Some(x) => x.as_array(),
        None => None,
    }
}

fn get_handler_list(body: &Json) -> (r: Option<&Vec<Json>>)
    ensures
        match r {
            Some(v) => handler_list(*body) == Some(*v),
            None => handler_list(*body) is None,
        },
{
    match body.get("exceptions") {
        Some(e) => match e.get("PLpgSQL_exception_block") {
            Some(b) => get_array(b, "exc_list"),
            None => None,
        },
        None => None,
    }
}

/// Appends the statements of a statement-wrapper node to `out`.
fn walk_stmt(node: &Json, out: &mut Vec<PlpgsqlStmt>)
    ensures
        extends_with(old(out)@, final(out)@, stmt_heads(*node)),
    decreases *node, 0nat,
{
    match node {
        Json::Object(fields) => {
            proof {
                assert(decreases_to!(*node => node->Object_0));
            }
            walk_members(fields, out);
        },
        _ => {
            proof {
                lemma_extends_refl(out@);
            }
        },
    }
}

fn walk_members(fields: &Vec<(String, Json)>, out: &mut Vec<PlpgsqlStmt>)
    ensures
        extends_with(old(out)@, final(out)@, member_heads(*fields, fields@.len())),
    decreases *fields, 0nat,
{
    let ghost start = out@;
    proof {
        lemma_extends_refl(start);
    }
    let mut i: usize = 0;
    while i < fields.len()
        invariant
            0 <= i <= fields.len(),
            extends_with(start, out@, member_heads(*fields, i as nat)),
        decreases fields.len() - i,
    {
        let key = &fields[i].0;
        let body = &fields[i].1;
        let ghost before = out@;
        let stmt = PlpgsqlStmt { kind: classify(key.as_str()), lineno: lineno(body) };
        out.push(stmt);
        proof {
            let h = (fields@[i as int].0@, lineno_of(*body));
            assert(extends_with(before, out@, seq![h])) by {
                assert(out@.subrange(0, before.len() as int) =~= before);
                assert(out@[before.len() as int] == stmt);
            }
            lemma_extends_trans(start, before, out@, member_heads(*fields, i as nat), seq![h]);
            assert(decreases_to!(*fields => fields@));
            assert(decreases_to!(fields@ => fields@[i as int]));
            assert(decreases_to!(fields@[i as int] => fields@[i as int].1));
        }
        let ghost mid = out@;
        walk_nested(body, out);
        proof {
            let h = (fields@[i as int].0@, lineno_of(*body));
            lemma_extends_trans(start, mid, out@, member_heads(*fields, i as nat) + seq![h], nested_heads(*body));
            assert(member_heads(*fields, (i + 1) as nat) == member_heads(*fields, i as nat) + seq![h]
                + nested_heads(*body));
        }
        i += 1;
    }
}

fn walk_nested(body: &Json, out: &mut Vec<PlpgsqlStmt>)
    ensures
        extends_with(old(out)@, final(out)@, nested_heads(*body)),
    decreases *body, 0nat,
{
    let ghost start = out@;
    proof {
        lemma_get_array_decreases(*body, "body"@);
        lemma_get_array_decreases(*body, "then_body"@);
        lemma_get_array_decreases(*body, "else_body"@);
        lemma_get_array_decreases(*body, "elsif_list"@);
        lemma_get_array_decreases(*body, "case_when_list"@);
        lemma_get_array_decreases(*body, "else_stmts"@);
        lemma_handler_list_decreases(*body);
        lemma_extends_refl(start);
    }
    let ghost a = match json_get_array(*body, "body"@) {
        Some(v) => list_heads(v, v@.len()),
        None => Seq::<StmtHead>::empty(),
    };
    let ghost b = match json_get_array(*body, "then_body"@) {
        Some(v) => list_heads(v, v@.len()),
        None => Seq::<StmtHead>::empty(),
    };
    let ghost c = match json_get_array(*body, "else_body"@) {
        Some(v) => list_heads(v, v@.len()),
        None => Seq::<StmtHead>::empty(),
    };
    let ghost d = match json_get_array(*body, "elsif_list"@) {
        Some(v) => arm_heads(v, "PLpgSQL_if_elsif"@, v@.len()),
        None => Seq::<StmtHead>::empty(),
    };
    let ghost e = match json_get_array(*body, "case_when_list"@) {
        Some(v) => arm_heads(v, "PLpgSQL_case_when"@, v@.len()),
        None => Seq::<StmtHead>::empty(),
    };
    let ghost g = match json_get_array(*body, "else_stmts"@) {
        Some(v) => list_heads(v, v@.len()),
        None => Seq::<StmtHead>::empty(),
    };
    let ghost f = match handler_list(*body) {
        Some(v) => handler_heads(v, v@.len()),
        None => Seq::<StmtHead>::empty(),
    };

    let ghost s0 = out@;
    if let Some(v) = get_array(body, "body") {
        walk_list(v, out);
    } else {
        proof { lemma_extends_refl(out@); }
    }
    let ghost s1 = out@;
    if let Some(v) = get_array(body, "then_body") {
        walk_list(v, out);
    } else {
        proof { lemma_extends_refl(out@); }
    }
    let ghost s2 = out@;
    if let Some(v) = get_array(body, "else_body") {
        walk_list(v, out);
    } else {
        proof { lemma_extends_refl(out@); }
    }
    let ghost s3 = out@;
    if let Some(v) = get_array(body, "elsif_list") {
        walk_arms(v, "PLpgSQL_if_elsif", out);
    } else {
        proof { lemma_extends_refl(out@); }
    }
    let ghost s4 = out@;
    if let Some(v) = get_array(body, "case_when_list") {
        walk_arms(v, "PLpgSQL_case_when", out);
    } else {
        proof { lemma_extends_refl(out@); }
    }
    let ghost s5 = out@;
    if let Some(v) = get_array(body, "else_stmts") {
        walk_list(v, out);
    } else {
        proof { lemma_extends_refl(out@); }
    }
    let ghost s6 = out@;
    if let Some(v) = get_handler_list(body) {
        walk_handlers(v, out);
    } else {
        proof { lemma_extends_refl(out@); }
    }
    proof {
        lemma_extends_trans(s0, s1, s2, a, b);
        lemma_extends_trans(s0, s2, s3, a + b, c);
        lemma_extends_trans(s0, s3, s4, a + b + c, d);
        lemma_extends_trans(s0, s4, s5, a + b + c + d, e);
        lemma_extends_trans(s0, s5, s6, a + b + c + d + e, g);
        lemma_extends_trans(s0, s6, out@, a + b + c + d + e + g, f);
    }
}

fn walk_list(v: &Vec<Json>, out: &mut Vec<PlpgsqlStmt>)
    ensures
        extends_with(old(out)@, final(out)@, list_heads(*v, v@.len())),
    decreases *v, 0nat,
{
    let ghost start = out@;
    proof {
        lemma_extends_refl(start);
    }
    let mut i: usize = 0;
    while i < v.len()
        invariant
            0 <= i <= v.len(),
            extends_with(start, out@, list_heads(*v, i as nat)),
        decreases v.len() - i,
    {
        let ghost before = out@;
        proof {
            assert(decreases_to!(*v => v@));
            assert(decreases_to!(v@ => v@[i as int]));
        }
        walk_stmt(&v[i], out);
        proof {
            lemma_extends_trans(start, before, out@, list_heads(*v, i as nat), stmt_heads(v@[i as int]));
        }
        i += 1;
    }
}

fn get_arm_stmts<'a>(arm: &'a Json, wrapper: &str) -> (r: Option<&'a Vec<Json>>)
    ensures
        match r {
            Some(v) => arm_stmts(*arm, wrapper@) == Some(*v),
            None => arm_stmts(*arm, wrapper@) is None,
        },
{
    match arm.get(wrapper) {
        Some(inner) => get_array(inner, "stmts"),
        None => get_array(arm, "stmts"),
    }
}

fn walk_arms(v: &Vec<Json>, wrapper: &str, out: &mut Vec<PlpgsqlStmt>)
    ensures
        extends_with(old(out)@, final(out)@, arm_heads(*v, wrapper@, v@.len())),
    decreases *v, 0nat,
{
    let ghost start = out@;
    proof {
        lemma_extends_refl(start);
    }
    let mut i: usize = 0;
    while i < v.len()
        invariant
            0 <= i <= v.len(),
            extends_with(start, out@, arm_heads(*v, wrapper@, i as nat)),
        decreases v.len() - i,
    {
        let ghost before = out@;
        let arm = &v[i];
        proof {
            assert(decreases_to!(*v => v@));
            assert(decreases_to!(v@ => v@[i as int]));
            lemma_arm_stmts_decreases(*arm, wrapper@);
        }
        if let Some(w) = get_arm_stmts(arm, wrapper) {
            walk_list(w, out);
        } else {
            proof { lemma_extends_refl(out@); }
        }
        proof {
            let add = match arm_stmts(*arm, wrapper@) {
                Some(w) => list_heads(w, w@.len()),
                None => Seq::<StmtHead>::empty(),
            };
            lemma_extends_trans(start, before, out@, arm_heads(*v, wrapper@, i as nat), add);
        }
        i += 1;
    }
}

fn walk_handlers(v: &Vec<Json>, out: &mut Vec<PlpgsqlStmt>)
    ensures
        extends_with(old(out)@, final(out)@, handler_heads(*v, v@.len())),
    decreases *v, 0nat,
{
    let ghost start = out@;
    proof {
        lemma_extends_refl(start);
    }
    let mut i: usize = 0;
    while i < v.len()
        invariant
            0 <= i <= v.len(),
            extends_with(start, out@, handler_heads(*v, i as nat)),
        decreases v.len() - i,
    {
        let ghost before = out@;
        let h = &v[i];
        proof {
            assert(decreases_to!(*v => v@));
            assert(decreases_to!(v@ => v@[i as int]));
            lemma_get_decreases(*h, "PLpgSQL_exception"@);
        }
        match h.get("PLpgSQL_exception") {
            Some(exc) => {
                proof {
                    lemma_get_array_decreases(*exc, "action"@);
                }
                match get_array(exc, "action") {
                    Some(w) => walk_list(w, out),
                    None => {
                        proof { lemma_extends_refl(out@); }
                    },
                }
            },
            None => {
                proof { lemma_extends_refl(out@); }
            },
        }
        proof {
            let add = match json_get(*h, "PLpgSQL_exception"@) {
                Some(exc) => match json_get_array(exc, "action"@) {
                    Some(w) => list_heads(w, w@.len()),
                    None => Seq::<StmtHead>::empty(),
                },
                None => Seq::<StmtHead>::empty(),
            };
            lemma_extends_trans(start, before, out@, handler_heads(*v, i as nat), add);
        }
        i += 1;
    }
}


/// The body statement of one function object of the dump:
/// `PLpgSQL_function.action`.
pub open spec fn function_action(func: Json) -> Option<Json> {
    match json_get(func, "PLpgSQL_function"@) {
        Some(f) => json_get(f, "action"@),
        None => None,
    }
}

/// The statements of the first `k` function objects of the dump.
pub open spec fn functions_heads(fs: Seq<Json>, k: nat) -> Seq<StmtHead>
    decreases k,
{
    if k == 0 || k > fs.len() {
        Seq::<StmtHead>::empty()
    } else {
        functions_heads(fs, (k - 1) as nat) + match function_action(fs[k - 1]) {
            Some(a) => stmt_heads(a),
            None => Seq::<StmtHead>::empty(),
        }
    }
}

/// The statements of a whole dump: it is an array of function objects,
/// and each contributes the statements of its body, in order. Anything
/// else holds no statement.
pub open spec fn dump_heads(tree: Json) -> Seq<StmtHead> {
    match tree {
        Json::Array(fs) => functions_heads(fs@, fs@.len()),
        _ => Seq::<StmtHead>::empty(),
    }
}

/// `stmts` lists one statement for each of `hs`, in order.
pub open spec fn lists(stmts: Seq<PlpgsqlStmt>, hs: Seq<StmtHead>) -> bool {
    extends_with(Seq::<PlpgsqlStmt>::empty(), stmts, hs)
}

/// The statements of a PL/pgSQL parse dump, in document order.
pub fn walk_top(value: &Json) -> (body: PlpgsqlBody)
    ensures
        lists(body.statements@, dump_heads(*value)),
{
    let mut out = PlpgsqlBody { statements: Vec::new() };
    proof {
        lemma_extends_refl(out.statements@);
    }
    let arr = match value.as_array() {
        Some(arr) => arr,
        None => {
            return out;
        },
    };
    let mut i: usize = 0;
    while i < arr.len()
        invariant
            0 <= i <= arr.len(),
            *value == Json::Array(*arr),
            lists(out.statements@, functions_heads(arr@, i as nat)),
        decreases arr.len() - i,
    {
        let ghost before = out.statements@;
        let func = &arr[i];
        let action = match func.get("PLpgSQL_function") {
            Some(f) => f.get("action"),
            None => None,
        };
        match action {
            Some(a) => walk_stmt(a, &mut out.statements),
            None => {
                proof { lemma_extends_refl(out.statements@); }
            },
        }
        proof {
            let add = match function_action(arr@[i as int]) {
                Some(a) => stmt_heads(a),
                None => Seq::<StmtHead>::empty(),
            };
            lemma_extends_trans(Seq::<PlpgsqlStmt>::empty(), before, out.statements@, functions_heads(arr@, i as nat), add);
        }
        i += 1;
    }
    out
}

/// The body of a `CREATE FUNCTION ... LANGUAGE plpgsql` statement, from
/// what the PL/pgSQL parser gave back for it: its JSON dump, or its error
/// message, which is passed on.
pub fn parse(tree: Result<Json, String>) -> (r: Result<PlpgsqlBody, String>)
    ensures
        match tree {
            Ok(j) => r matches Ok(body) && lists(body.statements@, dump_heads(j)),
            Err(e) => r == Err::<PlpgsqlBody, String>(e),
        },
{
    match tree {
        Ok(j) => Ok(walk_top(&j)),
        Err(e) => Err(e),
    }
}

/// The statements of the first `k` handlers of `v`, where `v` is `v1`
/// followed by `v2`.
proof fn lemma_handler_heads_split(v: Vec<Json>, v1: Vec<Json>, v2: Vec<Json>, k: nat)
    requires
        v@ == v1@ + v2@,
        k <= v@.len(),
    ensures
        k <= v1@.len() ==> handler_heads(v, k) == handler_heads(v1, k),
        k > v1@.len() ==> handler_heads(v, k) == handler_heads(v1, v1@.len()) + handler_heads(
            v2,
            (k - v1@.len()) as nat,
        ),
    decreases k,
{
    if k > 0 {
        lemma_handler_heads_split(v, v1, v2, (k - 1) as nat);
        if k <= v1@.len() {
            assert(v@[k - 1] == v1@[k - 1]);
        } else {
            assert(v@[k - 1] == v2@[k - v1@.len() - 1]);
            if k - 1 == v1@.len() {
                assert(handler_heads(v2, 0) == Seq::<StmtHead>::empty());
                assert(handler_heads(v1, v1@.len()) + Seq::<StmtHead>::empty() =~= handler_heads(
                    v1,
                    v1@.len(),
                ));
            }
        }
    }
}

/// The statements nested in a block end with those of its exception
/// handlers.
pub proof fn law_block_ends_with_its_handlers(body: Json, v: Vec<Json>)
    requires
        handler_list(body) == Some(v),
    ensures
        handler_heads(v, v@.len()).is_suffix_of(nested_heads(body)),
{
    let n = nested_heads(body);
    let f = handler_heads(v, v@.len());
    assert(n.subrange(n.len() - f.len(), n.len() as int) =~= f);
}

/// Every exception handler is walked, wherever it stands: the statements
/// of a handler list that is `v1` followed by `v2` are those of `v1`
/// followed by those of `v2`.
pub proof fn law_handlers_concatenate(v: Vec<Json>, v1: Vec<Json>, v2: Vec<Json>)
    requires
        v@ == v1@ + v2@,
    ensures
        handler_heads(v, v@.len()) == handler_heads(v1, v1@.len()) + handler_heads(v2, v2@.len()),
{
    lemma_handler_heads_split(v, v1, v2, v@.len());
    if v2@.len() == 0 {
        assert(handler_heads(v2, 0) == Seq::<StmtHead>::empty());
        assert(v@.len() == v1@.len());
        assert(handler_heads(v1, v1@.len()) + Seq::<StmtHead>::empty() =~= handler_heads(v1, v1@.len()));
    }
}

/// One handler contributes exactly the statements of its action list
/// (`PLpgSQL_exception.action`), walked as any statement list is.
pub proof fn law_one_handler_is_its_action(v: Vec<Json>, h: Json, exc: Json, w: Vec<Json>)
    requires
        v@ == seq![h],
        json_get(h, "PLpgSQL_exception"@) == Some(exc),
        json_get_array(exc, "action"@) == Some(w),
    ensures
        handler_heads(v, 1) == list_heads(w, w@.len()),
{
    assert(v@[0] == h);
    assert(handler_heads(v, 0) == Seq::<StmtHead>::empty());
    assert(Seq::<StmtHead>::empty() + list_heads(w, w@.len()) =~= list_heads(w, w@.len()));
}

proof fn lemma_list_heads_split(v: Vec<Json>, v1: Vec<Json>, v2: Vec<Json>, k: nat)
    requires
        v@ == v1@ + v2@,
        k <= v@.len(),
    ensures
        k <= v1@.len() ==> list_heads(v, k) == list_heads(v1, k),
        k > v1@.len() ==> list_heads(v, k) == list_heads(v1, v1@.len()) + list_heads(v2, (k - v1@.len()) as nat),
    decreases k,
{
    if k > 0 {
        lemma_list_heads_split(v, v1, v2, (k - 1) as nat);
        if k <= v1@.len() {
            assert(v@[k - 1] == v1@[k - 1]);
        } else {
            assert(v@[k - 1] == v2@[k - v1@.len() - 1]);
            if k - 1 == v1@.len() {
                assert(list_heads(v2, 0) == Seq::<StmtHead>::empty());
                assert(list_heads(v1, v1@.len()) + Seq::<StmtHead>::empty() =~= list_heads(v1, v1@.len()));
            }
        }
    }
}

/// Every statement of a statement list is walked, wherever it stands: the
/// statements of a list that is `v1` followed by `v2` are those of `v1`
/// followed by those of `v2`.
pub proof fn law_statement_lists_concatenate(v: Vec<Json>, v1: Vec<Json>, v2: Vec<Json>)
    requires
        v@ == v1@ + v2@,
    ensures
        list_heads(v, v@.len()) == list_heads(v1, v1@.len()) + list_heads(v2, v2@.len()),
{
    lemma_list_heads_split(v, v1, v2, v@.len());
    if v2@.len() == 0 {
        assert(list_heads(v2, 0) == Seq::<StmtHead>::empty());
        assert(list_heads(v1, v1@.len()) + Seq::<StmtHead>::empty() =~= list_heads(v1, v1@.len()));
    }
}

/// A statement list of one statement holds exactly that statement's own
/// statements.
pub proof fn law_statement_list_of_one(v: Vec<Json>, x: Json)
    requires
        v@ == seq![x],
    ensures
        list_heads(v, 1) == stmt_heads(x),
{
    assert(v@[0] == x);
    assert(list_heads(v, 0) == Seq::<StmtHead>::empty());
    assert(Seq::<StmtHead>::empty() + stmt_heads(x) =~= stmt_heads(x));
}

proof fn lemma_arm_heads_split(v: Vec<Json>, v1: Vec<Json>, v2: Vec<Json>, wrapper: Seq<char>, k: nat)
    requires
        v@ == v1@ + v2@,
        k <= v@.len(),
    ensures
        k <= v1@.len() ==> arm_heads(v, wrapper, k) == arm_heads(v1, wrapper, k),
        k > v1@.len() ==> arm_heads(v, wrapper, k) == arm_heads(v1, wrapper, v1@.len()) + arm_heads(
            v2,
            wrapper,
            (k - v1@.len()) as nat,
        ),
    decreases k,
{
    if k > 0 {
        lemma_arm_heads_split(v, v1, v2, wrapper, (k - 1) as nat);
        if k <= v1@.len() {
            assert(v@[k - 1] == v1@[k - 1]);
        } else {
            assert(v@[k - 1] == v2@[k - v1@.len() - 1]);
            if k - 1 == v1@.len() {
                assert(arm_heads(v2, wrapper, 0) == Seq::<StmtHead>::empty());
                assert(arm_heads(v1, wrapper, v1@.len()) + Seq::<StmtHead>::empty() =~= arm_heads(
                    v1,
                    wrapper,
                    v1@.len(),
                ));
            }
        }
    }
}

/// Every `ELSIF` or `CASE` arm is walked, wherever it stands: the
/// statements of an arm list that is `v1` followed by `v2` are those of
/// `v1` followed by those of `v2`.
pub proof fn law_arms_concatenate(v: Vec<Json>, v1: Vec<Json>, v2: Vec<Json>, wrapper: Seq<char>)
    requires
        v@ == v1@ + v2@,
    ensures
        arm_heads(v, wrapper, v@.len()) == arm_heads(v1, wrapper, v1@.len()) + arm_heads(v2, wrapper, v2@.len()),
{
    lemma_arm_heads_split(v, v1, v2, wrapper, v@.len());
    if v2@.len() == 0 {
        assert(arm_heads(v2, wrapper, 0) == Seq::<StmtHead>::empty());
        assert(arm_heads(v1, wrapper, v1@.len()) + Seq::<StmtHead>::empty() =~= arm_heads(v1, wrapper, v1@.len()));
    }
}

/// One arm contributes exactly the statements of its `stmts` list.
pub proof fn law_one_arm_is_its_statements(v: Vec<Json>, arm: Json, inner: Json, w: Vec<Json>, wrapper: Seq<char>)
    requires
        v@ == seq![arm],
        json_get(arm, wrapper) == Some(inner),
        json_get_array(inner, "stmts"@) == Some(w),
    ensures
        arm_heads(v, wrapper, 1) == list_heads(w, w@.len()),
{
    assert(v@[0] == arm);
    assert(arm_heads(v, wrapper, 0) == Seq::<StmtHead>::empty());
    assert(Seq::<StmtHead>::empty() + list_heads(w, w@.len()) =~= list_heads(w, w@.len()));
}

} // verus!

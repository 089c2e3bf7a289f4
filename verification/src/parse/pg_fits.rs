//! Checking that the Postgres statements of a document convert, and move
//! to their place in the document, within `u32` byte offsets: the
//! precondition `doc_fits` of `pg_parse::parse`, decided exactly.

use vstd::prelude::*;
use crate::parse::ast::{is_col, ColV, ColumnDef, Expr, JoinClause, Projection, StatementKind, TableRef};
use crate::parse::pg_convert::{
    bytes_total, byte_len, cref_fits, lemma_bytes_total_take, join_fits, lemma_join_larg_decreases, lemma_present_decreases, name_offset,
    rangevar_fits, ref_part_values, ref_parts, ref_span, table_views, target_fits, is_clause, is_join, is_proj,
    opt_clause, ProjV,
};
use crate::parse::pg_node::{present, present_ref, PgJoinExpr, PgNode, PgRangeVar, PgResTarget, PgSelectStmt};
use crate::parse::pg_parse::{
    chunk_fits, doc_fits, expr_fits, join_fits as kind_join_fits, kind_fits, opt_fits, proj_fits, range_fits,
    stmt_shift_fits, tables_fit,
};
use crate::parse::pg_statement::{
    coldef_matches, col_defs, from_fits, from_state, ranges_fit, relation_fits, select_fits, set_names, statement,
    stmt_fits, stmt_matches, target_projs, targets_fit,
};
use crate::parse::range::TextRange;

verus! {

fn str_bytes(s: &String) -> (n: u128)
    ensures
        n == byte_len(s@),
        n <= 0xffff_ffff_ffff_ffffu128,
{
    let n: usize = s.as_str().as_bytes().len();
    n as u128
}

/// Whether a range var's name token ends within `u32` (see `rangevar_fits`).
pub fn rangevar_fits_exec(r: &PgRangeVar) -> (b: bool)
    ensures
        b == rangevar_fits(*r),
{
    if r.location < 0 {
        return true;
    }
    let skip: u128 = if r.schemaname.as_str().is_empty() {
        0
    } else {
        str_bytes(&r.schemaname) + 1
    };
    assert(skip == name_offset(*r));
    let total: u128 = r.location as u128 + skip + str_bytes(&r.relname);
    total <= 0xffff_ffffu128
}

/// Whether a column reference's byte range ends within `u32` (see
/// `cref_fits`).
pub fn cref_fits_exec(fields: &Vec<PgNode>, location: i32) -> (b: bool)
    ensures
        b == cref_fits(fields@, location),
{
    if location < 0 {
        return true;
    }
    let parts = ref_part_values(fields);
    let ghost ps = parts.deep_view();
    let n: usize = parts.len();
    let mut total: u128 = 0;
    let mut j: usize = 0;
    while j < n
        invariant
            0 <= j <= n == parts@.len() == ps.len(),
            ps == parts.deep_view(),
            ps == ref_parts(fields@),
            total == bytes_total(ps.take(j as int)),
            total <= 0xffff_ffffu128,
            location >= 0,
        decreases n - j,
    {
        proof {
            assert(ps.take(j + 1).drop_last() =~= ps.take(j as int));
            assert(ps[j as int] == parts@[j as int]@);
            lemma_bytes_total_take(ps, j + 1);
        }
        total = total + str_bytes(&parts[j]);
        proof {
            assert(ps.take(j + 1).last() == ps[j as int]);
            assert(total == bytes_total(ps.take(j + 1)));
        }
        if total > 0xffff_ffffu128 {
            assert(ref_span(ps) >= bytes_total(ps));
            assert(ps == ref_parts(fields@));
            assert(bytes_total(ps.take(j + 1)) <= bytes_total(ps));
            assert(location + ref_span(ref_parts(fields@)) > u32::MAX);
            return false;
        }
        j += 1;
    }
    assert(ps.take(n as int) =~= ps);
    let dots: u128 = if n > 0 {
        (n - 1) as u128
    } else {
        0
    };
    assert(dots <= n);
    let len: u128 = total + dots;
    let span: u128 = if len > 0 {
        len
    } else {
        1
    };
    assert(span == ref_span(ps));
    location as u128 + span <= 0xffff_ffffu128
}

fn target_fits_exec(t: &PgResTarget) -> (b: bool)
    ensures
        b == target_fits(*t),
{
    match present_ref(&t.val) {
        Some(PgNode::ColumnRef { fields, location }) => cref_fits_exec(fields, *location),
        _ => true,
    }
}

fn targets_fit_exec(list: &Vec<PgNode>) -> (b: bool)
    ensures
        b == targets_fit(list@),
{
    let mut i: usize = 0;
    while i < list.len()
        invariant
            0 <= i <= list@.len(),
            forall|k: int| 0 <= k < i ==> (#[trigger] list@[k] matches PgNode::ResTarget(t) ==> target_fits(t)),
        decreases list@.len() - i,
    {
        if let PgNode::ResTarget(t) = &list[i] {
            if !target_fits_exec(t) {
                return false;
            }
        }
        i += 1;
    }
    true
}

fn join_fits_exec(j: &PgJoinExpr) -> (b: bool)
    ensures
        b == join_fits(*j),
    decreases *j,
{
    proof {
        lemma_join_larg_decreases(*j);
    }
    let left = match present_ref(&j.larg) {
        Some(PgNode::RangeVar(r)) => rangevar_fits_exec(r),
        Some(PgNode::JoinExpr(inner)) => join_fits_exec(inner),
        _ => true,
    };
    let right = match present_ref(&j.rarg) {
        Some(PgNode::RangeVar(r)) => rangevar_fits_exec(r),
        _ => true,
    };
    left && right
}

fn from_fits_exec(list: &Vec<PgNode>) -> (b: bool)
    ensures
        b == from_fits(list@),
{
    let mut i: usize = 0;
    while i < list.len()
        invariant
            0 <= i <= list@.len(),
            forall|k: int|
                0 <= k < i ==> {
                    &&& (#[trigger] list@[k] matches PgNode::RangeVar(r) ==> rangevar_fits(r))
                    &&& (list@[k] matches PgNode::JoinExpr(j) ==> join_fits(*j))
                },
        decreases list@.len() - i,
    {
        match &list[i] {
            PgNode::RangeVar(r) => {
                if !rangevar_fits_exec(r) {
                    return false;
                }
            },
            PgNode::JoinExpr(j) => {
                if !join_fits_exec(j) {
                    return false;
                }
            },
            _ => {},
        }
        i += 1;
    }
    true
}

fn ranges_fit_exec(list: &Vec<PgNode>) -> (b: bool)
    ensures
        b == ranges_fit(list@),
{
    let mut i: usize = 0;
    while i < list.len()
        invariant
            0 <= i <= list@.len(),
            forall|k: int| 0 <= k < i ==> (#[trigger] list@[k] matches PgNode::RangeVar(r) ==> rangevar_fits(r)),
        decreases list@.len() - i,
    {
        if let PgNode::RangeVar(r) = &list[i] {
            if !rangevar_fits_exec(r) {
                return false;
            }
        }
        i += 1;
    }
    true
}

fn relation_fits_exec(r: &Option<PgRangeVar>) -> (b: bool)
    ensures
        b == relation_fits(*r),
{
    match r {
        Some(x) => rangevar_fits_exec(x),
        None => true,
    }
}

/// Whether the byte ranges a statement's conversion computes stay within
/// `u32` (see `stmt_fits`).
pub fn stmt_fits_exec(node: &PgNode) -> (b: bool)
    ensures
        b == stmt_fits(*node),
{
    match node {
        PgNode::CreateStmt { relation, .. } => relation_fits_exec(relation),
        PgNode::SelectStmt(s) => targets_fit_exec(&s.target_list) && from_fits_exec(&s.from_clause),
        PgNode::InsertStmt { relation, .. } => relation_fits_exec(relation),
        PgNode::UpdateStmt { relation, from_clause, .. } => relation_fits_exec(relation) && ranges_fit_exec(
            from_clause,
        ),
        PgNode::DeleteStmt { relation, using_clause, .. } => relation_fits_exec(relation) && ranges_fit_exec(
            using_clause,
        ),
        PgNode::AlterTableStmt { relation } => relation_fits_exec(relation),
        _ => true,
    }
}


fn range_fits_exec(r: TextRange, off: u32) -> (b: bool)
    ensures
        b == range_fits(r, off),
{
    if r.len() > 0 {
        r.end() as u64 + off as u64 <= 0xffff_ffffu64
    } else {
        true
    }
}

fn exprs_fit_exec(v: &Vec<Expr>, off: u32, Ghost(e): Ghost<Expr>) -> (b: bool)
    requires
        forall|i: int| 0 <= i < v@.len() ==> decreases_to!(e => #[trigger] v@[i]),
    ensures
        b == forall|i: int| 0 <= i < v@.len() ==> expr_fits(#[trigger] v@[i], off),
    decreases e, 0nat,
{
    let mut i: usize = 0;
    while i < v.len()
        invariant
            0 <= i <= v@.len(),
            forall|k: int| 0 <= k < v@.len() ==> decreases_to!(e => #[trigger] v@[k]),
            forall|k: int| 0 <= k < i ==> expr_fits(#[trigger] v@[k], off),
        decreases v@.len() - i,
    {
        if !expr_fits_exec(&v[i], off) {
            return false;
        }
        i += 1;
    }
    true
}

fn expr_fits_exec(e: &Expr, off: u32) -> (b: bool)
    ensures
        b == expr_fits(*e, off),
    decreases *e, 1nat,
{
    match e {
        Expr::Column { range, .. } => range_fits_exec(*range, off),
        Expr::BinaryOp { left, right, .. } => expr_fits_exec(left, off) && expr_fits_exec(right, off),
        Expr::Call { args, .. } => {
            proof {
                assert forall|i: int| 0 <= i < args@.len() implies decreases_to!(*e => #[trigger] args@[i]) by {
                    assert(decreases_to!(*e => e->Call_args));
                    assert(decreases_to!(*args => args@));
                    assert(decreases_to!(args@ => args@[i]));
                }
            }
            exprs_fit_exec(args, off, Ghost(*e))
        },
        Expr::List(items) => {
            proof {
                assert forall|i: int| 0 <= i < items@.len() implies decreases_to!(*e => #[trigger] items@[i]) by {
                    assert(decreases_to!(*e => e->List_0));
                    assert(decreases_to!(*items => items@));
                    assert(decreases_to!(items@ => items@[i]));
                }
            }
            exprs_fit_exec(items, off, Ghost(*e))
        },
        _ => true,
    }
}

fn opt_fits_exec(o: &Option<Expr>, off: u32) -> (b: bool)
    ensures
        b == opt_fits(*o, off),
{
    match o {
        Some(x) => expr_fits_exec(x, off),
        None => true,
    }
}

fn tables_fit_exec(ts: &Vec<TableRef>, off: u32) -> (b: bool)
    ensures
        b == tables_fit(ts@, off),
{
    let mut i: usize = 0;
    while i < ts.len()
        invariant
            0 <= i <= ts@.len(),
            forall|k: int| 0 <= k < i ==> range_fits(#[trigger] ts@[k].range, off),
        decreases ts@.len() - i,
    {
        if !range_fits_exec(ts[i].range, off) {
            return false;
        }
        i += 1;
    }
    true
}

fn projs_fit_exec(ps: &Vec<Projection>, off: u32) -> (b: bool)
    ensures
        b == forall|q: int| 0 <= q < ps@.len() ==> proj_fits(#[trigger] ps@[q], off),
{
    let mut i: usize = 0;
    while i < ps.len()
        invariant
            0 <= i <= ps@.len(),
            forall|q: int| 0 <= q < i ==> proj_fits(#[trigger] ps@[q], off),
        decreases ps@.len() - i,
    {
        let ok = match &ps[i] {
            Projection::Expr { expr, .. } => expr_fits_exec(expr, off),
            _ => true,
        };
        if !ok {
            return false;
        }
        i += 1;
    }
    true
}

fn joins_fit_exec(js: &Vec<JoinClause>, off: u32) -> (b: bool)
    ensures
        b == forall|q: int| 0 <= q < js@.len() ==> kind_join_fits(#[trigger] js@[q], off),
{
    let mut j: usize = 0;
    while j < js.len()
        invariant
            0 <= j <= js@.len(),
            forall|q: int| 0 <= q < j ==> kind_join_fits(#[trigger] js@[q], off),
        decreases js@.len() - j,
    {
        let jc: &JoinClause = &js[j];
        if !(range_fits_exec(jc.table.range, off) && opt_fits_exec(&jc.on, off)) {
            return false;
        }
        j += 1;
    }
    true
}

fn assignments_fit_exec(a: &Vec<(String, Expr)>, off: u32) -> (b: bool)
    ensures
        b == forall|q: int| 0 <= q < a@.len() ==> expr_fits(#[trigger] a@[q].1, off),
{
    let mut i: usize = 0;
    while i < a.len()
        invariant
            0 <= i <= a@.len(),
            forall|q: int| 0 <= q < i ==> expr_fits(#[trigger] a@[q].1, off),
        decreases a@.len() - i,
    {
        if !expr_fits_exec(&a[i].1, off) {
            return false;
        }
        i += 1;
    }
    true
}

fn columns_fit_exec(c: &Vec<ColumnDef>, off: u32) -> (b: bool)
    ensures
        b == forall|q: int| 0 <= q < c@.len() ==> range_fits(#[trigger] c@[q].range, off),
{
    let mut i: usize = 0;
    while i < c.len()
        invariant
            0 <= i <= c@.len(),
            forall|q: int| 0 <= q < i ==> range_fits(#[trigger] c@[q].range, off),
        decreases c@.len() - i,
    {
        if !range_fits_exec(c[i].range, off) {
            return false;
        }
        i += 1;
    }
    true
}

/// Whether every range of the statement can be moved by `off` within
/// `u32` (see `kind_fits`).
pub fn kind_fits_exec(k: &StatementKind, off: u32) -> (b: bool)
    ensures
        b == kind_fits(*k, off),
{
    match k {
        StatementKind::Select(s) => projs_fit_exec(&s.projections, off) && tables_fit_exec(&s.from, off)
            && joins_fit_exec(&s.joins, off) && opt_fits_exec(&s.where_clause, off),
        StatementKind::Insert(i) => range_fits_exec(i.table.range, off),
        StatementKind::Update(u) => range_fits_exec(u.table.range, off) && assignments_fit_exec(&u.assignments, off)
            && opt_fits_exec(&u.where_clause, off) && tables_fit_exec(&u.from_tables, off),
        StatementKind::Delete(d) => range_fits_exec(d.table.range, off) && opt_fits_exec(&d.where_clause, off)
            && tables_fit_exec(&d.using_tables, off),
        StatementKind::CreateTable(c) => range_fits_exec(c.table.range, off) && columns_fit_exec(&c.columns, off),
        StatementKind::AlterTable(a) => range_fits_exec(a.table.range, off),
        StatementKind::DropTable(d) => tables_fit_exec(&d.tables, off),
        _ => true,
    }
}

proof fn lemma_views_fit(a: Seq<TableRef>, b: Seq<TableRef>, off: u32)
    requires
        table_views(a) == table_views(b),
        tables_fit(a, off),
    ensures
        tables_fit(b, off),
{
    assert(a.len() == table_views(a).len());
    assert forall|i: int| 0 <= i < b.len() implies range_fits(#[trigger] b[i].range, off) by {
        assert(table_views(a)[i] == a[i]@);
        assert(table_views(b)[i] == b[i]@);
    }
}

proof fn lemma_clause_fits(e: Option<Expr>, c: Option<Seq<ColV>>, off: u32)
    requires
        is_clause(e, c),
    ensures
        opt_fits(e, off),
{
    if let Some(x) = e {
        let v = x->List_0;
        let cs = c->0;
        assert forall|i: int| 0 <= i < v@.len() implies expr_fits(#[trigger] v@[i], off) by {
            assert(is_col(v@[i], cs[i]));
        }
    }
}

/// Any two conversions of one statement can have their ranges moved by
/// `off` alike: the conversion fixes every range it holds.
pub proof fn lemma_fits_agree(k1: StatementKind, k2: StatementKind, node: PgNode, text: Seq<char>, off: u32)
    requires
        stmt_matches(k1, node, text),
        stmt_matches(k2, node, text),
        kind_fits(k1, off),
    ensures
        kind_fits(k2, off),
{
    match node {
        PgNode::SelectStmt(s) => {
            let x = k1->Select_0;
            let y = k2->Select_0;
            let vs = target_projs(s.target_list@);
            assert forall|i: int| 0 <= i < y.projections@.len() implies proj_fits(#[trigger] y.projections@[i], off) by {
                assert(is_proj(x.projections@[i], vs[i]));
                assert(is_proj(y.projections@[i], vs[i]));
                assert(proj_fits(x.projections@[i], off));
                if let ProjV::Refs { cols, .. } = vs[i] {
                    let e = y.projections@[i]->Expr_expr;
                    lemma_clause_fits(Some(e), Some(cols), off);
                }
            }
            lemma_views_fit(x.from@, y.from@, off);
            let jv = from_state(s.from_clause@).1;
            assert forall|i: int| 0 <= i < y.joins@.len() implies kind_join_fits(#[trigger] y.joins@[i], off) by {
                assert(is_join(x.joins@[i], jv[i]));
                assert(is_join(y.joins@[i], jv[i]));
                assert(kind_join_fits(x.joins@[i], off));
                lemma_clause_fits(y.joins@[i].on, jv[i].2, off);
            }
            lemma_clause_fits(y.where_clause, opt_clause(s.where_clause), off);
        },
        PgNode::UpdateStmt { where_clause, target_list, .. } => {
            let x = k1->Update_0;
            let y = k2->Update_0;
            let names = set_names(target_list@);
            assert forall|i: int| 0 <= i < y.assignments@.len() implies expr_fits(
                #[trigger] y.assignments@[i].1,
                off,
            ) by {
                assert(y.assignments@[i].1 matches Expr::Other(_));
            }
            lemma_clause_fits(y.where_clause, opt_clause(where_clause), off);
            lemma_views_fit(x.from_tables@, y.from_tables@, off);
        },
        PgNode::DeleteStmt { where_clause, .. } => {
            let x = k1->Delete_0;
            let y = k2->Delete_0;
            lemma_clause_fits(y.where_clause, opt_clause(where_clause), off);
            lemma_views_fit(x.using_tables@, y.using_tables@, off);
        },
        PgNode::CreateStmt { table_elts, .. } => {
            let y = k2->CreateTable_0;
            let ds = col_defs(table_elts@);
            assert forall|i: int| 0 <= i < y.columns@.len() implies range_fits(#[trigger] y.columns@[i].range, off) by {
                assert(coldef_matches(y.columns@[i], ds[i]));
            }
        },
        PgNode::DropStmt { remove_type, .. } => {
            if remove_type == 42 {
                lemma_views_fit(k1->DropTable_0.tables@, k2->DropTable_0.tables@, off);
            }
        },
        _ => {},
    }
}

/// Whether the Postgres statements of a document, each the parser's
/// answer for one chunk, convert and move to their chunk's place within
/// `u32` byte offsets: exactly the precondition `doc_fits` of
/// `pg_parse::parse`.
pub fn doc_fits_exec(chunks: &Vec<(String, TextRange)>, results: &Vec<Result<Vec<PgNode>, String>>) -> (b: bool)
    requires
        chunks@.len() == results@.len(),
    ensures
        b == doc_fits(chunks@, results@),
{
    let mut i: usize = 0;
    while i < results.len()
        invariant
            0 <= i <= results@.len() == chunks@.len(),
            forall|q: int|
                0 <= q < i ==> chunk_fits(#[trigger] results@[q], chunks@[q].0@, chunks@[q].1.start_spec()),
        decreases results@.len() - i,
    {
        if !chunk_fits_exec(&results[i], chunks[i].0.as_str(), chunks[i].1.start()) {
            assert(!chunk_fits(results@[i as int], chunks@[i as int].0@, chunks@[i as int].1.start_spec()));
            return false;
        }
        i += 1;
    }
    true
}

fn chunk_fits_exec(r: &Result<Vec<PgNode>, String>, text: &str, off: u32) -> (b: bool)
    ensures
        b == chunk_fits(*r, text@, off),
{
    match r {
        Err(_) => true,
        Ok(nodes) => {
            let mut j: usize = 0;
            while j < nodes.len()
                invariant
                    0 <= j <= nodes@.len(),
                    *r == Ok::<Vec<PgNode>, String>(*nodes),
                    forall|q: int|
                        0 <= q < j ==> stmt_fits(#[trigger] nodes@[q]) && stmt_shift_fits(nodes@[q], text@, off),
                decreases nodes@.len() - j,
            {
                let node = &nodes[j];
                assert(nodes@[j as int] == *node);
                if !stmt_fits_exec(node) {
                    let ghost ns = (*r)->Ok_0;
                    assert(ns == *nodes);
                    assert(!stmt_fits(ns@[j as int]));
                    assert(!chunk_fits(*r, text@, off));
                    return false;
                }
                let k = statement(node, text);
                if !kind_fits_exec(&k, off) {
                    assert(!stmt_shift_fits(*node, text@, off));
                    let ghost ns = (*r)->Ok_0;
                    assert(ns == *nodes);
                    assert(!stmt_shift_fits(ns@[j as int], text@, off));
                    assert(!chunk_fits(*r, text@, off));
                    return false;
                }
                assert(stmt_shift_fits(*node, text@, off)) by {
                    assert forall|k2: StatementKind| #[trigger] stmt_matches(k2, *node, text@) implies kind_fits(
                        k2,
                        off,
                    ) by {
                        lemma_fits_agree(k, k2, *node, text@, off);
                    }
                }
                j += 1;
            }
            true
        },
    }
}

} // verus!

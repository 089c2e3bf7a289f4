//! When two statements of the internal AST say the same thing: the same
//! variants, texts, flags and byte ranges, field by field, texts compared
//! by their characters. The conversion of a Postgres statement fixes its
//! result up to this agreement, and moving ranges keeps it.

use vstd::prelude::*;
use crate::parse::ast::{is_col, ColumnDef, Expr, JoinClause, ParsedFile, Projection, StatementKind};
use crate::parse::pg_convert::{is_clause, is_join, is_proj, opt_clause, table_views, ProjV};
use crate::parse::pg_node::PgNode;
use crate::parse::pg_parse::{
    column_shifted, doc_errors, doc_slots, expr_shifted, file_matches, is_error, is_slot, join_shifted, kind_shifted,
    opt_shifted, proj_shifted, range_shifted, table_shifted, tables_shifted,
};
use crate::parse::pg_statement::{coldef_matches, col_defs, from_state, set_names, stmt_matches, target_projs};
use crate::parse::range::TextRange;

verus! {

/// The same byte range.
pub open spec fn range_agrees(a: TextRange, b: TextRange) -> bool {
    a.start_spec() == b.start_spec() && a.end_spec() == b.end_spec()
}

/// The same expression, field by field.
pub open spec fn expr_agrees(a: Expr, b: Expr) -> bool
    decreases a,
{
    match a {
        Expr::Column { qualifier, name, range } => {
            &&& b matches Expr::Column { qualifier: q2, name: n2, range: r2 }
            &&& q2.deep_view() == qualifier.deep_view()
            &&& n2@ == name@
            &&& range_agrees(range, r2)
        },
        Expr::Literal(t) => b matches Expr::Literal(t2) && t2@ == t@,
        Expr::BinaryOp { op, left, right } => {
            &&& b matches Expr::BinaryOp { op: o2, left: l2, right: r2 }
            &&& o2@ == op@
            &&& expr_agrees(*left, *l2)
            &&& expr_agrees(*right, *r2)
        },
        Expr::Call { name, args } => {
            &&& b matches Expr::Call { name: n2, args: a2 }
            &&& n2@ == name@
            &&& a2@.len() == args@.len()
            &&& forall|i: int| 0 <= i < args@.len() ==> expr_agrees(#[trigger] args@[i], a2@[i])
        },
        Expr::Other(t) => b matches Expr::Other(t2) && t2@ == t@,
        Expr::List(items) => {
            &&& b matches Expr::List(i2)
            &&& i2@.len() == items@.len()
            &&& forall|i: int| 0 <= i < items@.len() ==> expr_agrees(#[trigger] items@[i], i2@[i])
        },
    }
}

/// The same optional expression.
pub open spec fn opt_agrees(a: Option<Expr>, b: Option<Expr>) -> bool {
    match a {
        Some(x) => b matches Some(y) && expr_agrees(x, y),
        None => b is None,
    }
}

/// The same projection.
pub open spec fn proj_agrees(a: Projection, b: Projection) -> bool {
    match a {
        Projection::Star => b is Star,
        Projection::QualifiedStar(q) => b matches Projection::QualifiedStar(q2) && q2@ == q@,
        Projection::Expr { expr, alias } => b matches Projection::Expr { expr: e2, alias: a2 } && a2.deep_view()
            == alias.deep_view() && expr_agrees(expr, e2),
    }
}

/// The same join.
pub open spec fn join_agrees(a: JoinClause, b: JoinClause) -> bool {
    a.kind == b.kind && a.table@ == b.table@ && opt_agrees(a.on, b.on)
}

/// The same column definition.
pub open spec fn column_agrees(a: ColumnDef, b: ColumnDef) -> bool {
    &&& a.name@ == b.name@
    &&& a.sql_type@ == b.sql_type@
    &&& a.nullable == b.nullable
    &&& a.default.deep_view() == b.default.deep_view()
    &&& range_agrees(a.range, b.range)
}

/// The same statement, field by field.
pub open spec fn kind_agrees_v(a: StatementKind, b: StatementKind) -> bool {
    match a {
        StatementKind::Select(s) => {
            &&& b matches StatementKind::Select(t)
            &&& t.projections@.len() == s.projections@.len()
            &&& forall|i: int|
                0 <= i < s.projections@.len() ==> proj_agrees(#[trigger] s.projections@[i], t.projections@[i])
            &&& table_views(t.from@) == table_views(s.from@)
            &&& t.joins@.len() == s.joins@.len()
            &&& forall|i: int| 0 <= i < s.joins@.len() ==> join_agrees(#[trigger] s.joins@[i], t.joins@[i])
            &&& opt_agrees(s.where_clause, t.where_clause)
            &&& t.cte_names.deep_view() == s.cte_names.deep_view()
        },
        StatementKind::Insert(i) => {
            &&& b matches StatementKind::Insert(j)
            &&& j.table@ == i.table@
            &&& j.columns.deep_view() == i.columns.deep_view()
        },
        StatementKind::Update(u) => {
            &&& b matches StatementKind::Update(v)
            &&& v.table@ == u.table@
            &&& v.assignments@.len() == u.assignments@.len()
            &&& forall|i: int|
                0 <= i < u.assignments@.len() ==> (#[trigger] v.assignments@[i]).0@ == u.assignments@[i].0@
                    && expr_agrees(u.assignments@[i].1, v.assignments@[i].1)
            &&& opt_agrees(u.where_clause, v.where_clause)
            &&& table_views(v.from_tables@) == table_views(u.from_tables@)
        },
        StatementKind::Delete(d) => {
            &&& b matches StatementKind::Delete(e)
            &&& e.table@ == d.table@
            &&& opt_agrees(d.where_clause, e.where_clause)
            &&& table_views(e.using_tables@) == table_views(d.using_tables@)
        },
        StatementKind::CreateTable(c) => {
            &&& b matches StatementKind::CreateTable(e)
            &&& e.table@ == c.table@
            &&& e.if_not_exists == c.if_not_exists
            &&& e.columns@.len() == c.columns@.len()
            &&& forall|i: int| 0 <= i < c.columns@.len() ==> column_agrees(#[trigger] c.columns@[i], e.columns@[i])
        },
        StatementKind::AlterTable(t) => b matches StatementKind::AlterTable(u) && u.table@ == t.table@,
        StatementKind::DropTable(d) => {
            &&& b matches StatementKind::DropTable(e)
            &&& table_views(e.tables@) == table_views(d.tables@)
            &&& e.if_exists == d.if_exists
        },
        StatementKind::Unknown { text } => b matches StatementKind::Unknown { text: t2 } && t2@ == text@,
    }
}

proof fn lemma_clause_agrees(a: Option<Expr>, b: Option<Expr>, c: Option<Seq<crate::parse::ast::ColV>>)
    requires
        is_clause(a, c),
        is_clause(b, c),
    ensures
        opt_agrees(a, b),
{
    if let Some(x) = a {
        let v = x->List_0;
        let w = b->0->List_0;
        let cs = c->0;
        assert forall|i: int| 0 <= i < v@.len() implies expr_agrees(#[trigger] v@[i], w@[i]) by {
            assert(is_col(v@[i], cs[i]));
            assert(is_col(w@[i], cs[i]));
        }
    }
}

/// Two conversions of one Postgres statement agree field by field: the
/// conversion fixes its result.
pub proof fn lemma_conversion_agrees(k1: StatementKind, k2: StatementKind, node: PgNode, text: Seq<char>)
    requires
        stmt_matches(k1, node, text),
        stmt_matches(k2, node, text),
    ensures
        kind_agrees_v(k1, k2),
{
    match node {
        PgNode::SelectStmt(s) => {
            let x = k1->Select_0;
            let y = k2->Select_0;
            let vs = target_projs(s.target_list@);
            assert forall|i: int| 0 <= i < x.projections@.len() implies proj_agrees(
                #[trigger] x.projections@[i],
                y.projections@[i],
            ) by {
                assert(is_proj(x.projections@[i], vs[i]));
                assert(is_proj(y.projections@[i], vs[i]));
                if let ProjV::Refs { cols, .. } = vs[i] {
                    lemma_clause_agrees(
                        Some(x.projections@[i]->Expr_expr),
                        Some(y.projections@[i]->Expr_expr),
                        Some(cols),
                    );
                }
                if let ProjV::Blank { .. } = vs[i] {
                    let t1 = x.projections@[i]->Expr_expr->Other_0;
                    let t2 = y.projections@[i]->Expr_expr->Other_0;
                    assert(t1@ =~= t2@);
                }
            }
            let jv = from_state(s.from_clause@).1;
            assert forall|i: int| 0 <= i < x.joins@.len() implies join_agrees(#[trigger] x.joins@[i], y.joins@[i]) by {
                assert(is_join(x.joins@[i], jv[i]));
                assert(is_join(y.joins@[i], jv[i]));
                lemma_clause_agrees(x.joins@[i].on, y.joins@[i].on, jv[i].2);
            }
            lemma_clause_agrees(x.where_clause, y.where_clause, opt_clause(s.where_clause));
        },
        PgNode::UpdateStmt { where_clause, target_list, .. } => {
            let x = k1->Update_0;
            let y = k2->Update_0;
            let names = set_names(target_list@);
            assert forall|i: int| 0 <= i < x.assignments@.len() implies (#[trigger] y.assignments@[i]).0@
                == x.assignments@[i].0@ && expr_agrees(x.assignments@[i].1, y.assignments@[i].1) by {
                assert(x.assignments@[i].0@ == names[i]);
                assert(y.assignments@[i].0@ == names[i]);
                let t1 = x.assignments@[i].1->Other_0;
                let t2 = y.assignments@[i].1->Other_0;
                assert(t1@ =~= t2@);
            }
            lemma_clause_agrees(x.where_clause, y.where_clause, opt_clause(where_clause));
        },
        PgNode::DeleteStmt { where_clause, .. } => {
            lemma_clause_agrees(k1->Delete_0.where_clause, k2->Delete_0.where_clause, opt_clause(where_clause));
        },
        PgNode::CreateStmt { table_elts, .. } => {
            let x = k1->CreateTable_0;
            let y = k2->CreateTable_0;
            let ds = col_defs(table_elts@);
            assert forall|i: int| 0 <= i < x.columns@.len() implies column_agrees(
                #[trigger] x.columns@[i],
                y.columns@[i],
            ) by {
                assert(coldef_matches(x.columns@[i], ds[i]));
                assert(coldef_matches(y.columns@[i], ds[i]));
            }
        },
        _ => {},
    }
}

proof fn lemma_range_shift_agrees(a: TextRange, a2: TextRange, b: TextRange, b2: TextRange, o: u32)
    requires
        range_agrees(a, a2),
        range_shifted(a, b, o),
        range_shifted(a2, b2, o),
    ensures
        range_agrees(b, b2),
{
}

proof fn lemma_expr_shift_agrees(a: Expr, a2: Expr, b: Expr, b2: Expr, o: u32)
    requires
        expr_agrees(a, a2),
        expr_shifted(a, b, o),
        expr_shifted(a2, b2, o),
    ensures
        expr_agrees(b, b2),
    decreases a,
{
    match a {
        Expr::Column { range, .. } => {
            lemma_range_shift_agrees(range, a2->Column_range, b->Column_range, b2->Column_range, o);
        },
        Expr::BinaryOp { left, right, .. } => {
            lemma_expr_shift_agrees(*left, *a2->BinaryOp_left, *b->BinaryOp_left, *b2->BinaryOp_left, o);
            lemma_expr_shift_agrees(*right, *a2->BinaryOp_right, *b->BinaryOp_right, *b2->BinaryOp_right, o);
        },
        Expr::Call { args, .. } => {
            let ba = b->Call_args;
            assert forall|i: int| 0 <= i < ba@.len() implies expr_agrees(#[trigger] ba@[i], b2->Call_args@[i]) by {
                assert(decreases_to!(a => a->Call_args));
                assert(decreases_to!(args => args@));
                assert(decreases_to!(args@ => args@[i]));
                lemma_expr_shift_agrees(args@[i], a2->Call_args@[i], ba@[i], b2->Call_args@[i], o);
            }
        },
        Expr::List(items) => {
            let bi = b->List_0;
            assert forall|i: int| 0 <= i < bi@.len() implies expr_agrees(#[trigger] bi@[i], b2->List_0@[i]) by {
                assert(decreases_to!(a => a->List_0));
                assert(decreases_to!(items => items@));
                assert(decreases_to!(items@ => items@[i]));
                lemma_expr_shift_agrees(items@[i], a2->List_0@[i], bi@[i], b2->List_0@[i], o);
            }
        },
        _ => {},
    }
}

proof fn lemma_opt_shift_agrees(a: Option<Expr>, a2: Option<Expr>, b: Option<Expr>, b2: Option<Expr>, o: u32)
    requires
        opt_agrees(a, a2),
        opt_shifted(a, b, o),
        opt_shifted(a2, b2, o),
    ensures
        opt_agrees(b, b2),
{
    if let Some(x) = a {
        lemma_expr_shift_agrees(x, a2->0, b->0, b2->0, o);
    }
}

proof fn lemma_tables_shift_agrees(
    a: Seq<crate::parse::ast::TableRef>,
    a2: Seq<crate::parse::ast::TableRef>,
    b: Seq<crate::parse::ast::TableRef>,
    b2: Seq<crate::parse::ast::TableRef>,
    o: u32,
)
    requires
        table_views(a) == table_views(a2),
        tables_shifted(a, b, o),
        tables_shifted(a2, b2, o),
    ensures
        table_views(b) == table_views(b2),
{
    assert(a.len() == table_views(a).len() && a2.len() == table_views(a2).len());
    assert forall|i: int| 0 <= i < b.len() implies #[trigger] table_views(b)[i] == table_views(b2)[i] by {
        assert(table_views(a)[i] == a[i]@);
        assert(table_views(a2)[i] == a2[i]@);
        assert(table_shifted(a[i], b[i], o));
        assert(table_shifted(a2[i], b2[i], o));
        lemma_range_shift_agrees(a[i].range, a2[i].range, b[i].range, b2[i].range, o);
    }
    assert(table_views(b) =~= table_views(b2));
}

/// Moving the ranges of two agreeing statements by the same offset gives
/// agreeing statements.
pub proof fn lemma_shift_agrees(a: StatementKind, a2: StatementKind, b: StatementKind, b2: StatementKind, o: u32)
    requires
        kind_agrees_v(a, a2),
        kind_shifted(a, b, o),
        kind_shifted(a2, b2, o),
    ensures
        kind_agrees_v(b, b2),
{
    match a {
        StatementKind::Select(s) => {
            let s2 = a2->Select_0;
            let t = b->Select_0;
            let t2 = b2->Select_0;
            assert forall|i: int| 0 <= i < t.projections@.len() implies proj_agrees(
                #[trigger] t.projections@[i],
                t2.projections@[i],
            ) by {
                assert(proj_agrees(s.projections@[i], s2.projections@[i]));
                assert(proj_shifted(s.projections@[i], t.projections@[i], o));
                assert(proj_shifted(s2.projections@[i], t2.projections@[i], o));
                if let Projection::Expr { expr, .. } = s.projections@[i] {
                    lemma_expr_shift_agrees(
                        expr,
                        s2.projections@[i]->Expr_expr,
                        t.projections@[i]->Expr_expr,
                        t2.projections@[i]->Expr_expr,
                        o,
                    );
                }
            }
            lemma_tables_shift_agrees(s.from@, s2.from@, t.from@, t2.from@, o);
            assert forall|i: int| 0 <= i < t.joins@.len() implies join_agrees(#[trigger] t.joins@[i], t2.joins@[i]) by {
                assert(join_agrees(s.joins@[i], s2.joins@[i]));
                assert(join_shifted(s.joins@[i], t.joins@[i], o));
                assert(join_shifted(s2.joins@[i], t2.joins@[i], o));
                lemma_range_shift_agrees(
                    s.joins@[i].table.range,
                    s2.joins@[i].table.range,
                    t.joins@[i].table.range,
                    t2.joins@[i].table.range,
                    o,
                );
                lemma_opt_shift_agrees(s.joins@[i].on, s2.joins@[i].on, t.joins@[i].on, t2.joins@[i].on, o);
            }
            lemma_opt_shift_agrees(s.where_clause, s2.where_clause, t.where_clause, t2.where_clause, o);
        },
        StatementKind::Insert(i) => {
            lemma_range_shift_agrees(
                i.table.range,
                a2->Insert_0.table.range,
                b->Insert_0.table.range,
                b2->Insert_0.table.range,
                o,
            );
        },
        StatementKind::Update(x) => {
            let x2 = a2->Update_0;
            let y = b->Update_0;
            let y2 = b2->Update_0;
            lemma_range_shift_agrees(x.table.range, x2.table.range, y.table.range, y2.table.range, o);
            assert forall|i: int| 0 <= i < y.assignments@.len() implies (#[trigger] y2.assignments@[i]).0@
                == y.assignments@[i].0@ && expr_agrees(y.assignments@[i].1, y2.assignments@[i].1) by {
                assert(x2.assignments@[i].0@ == x.assignments@[i].0@);
                lemma_expr_shift_agrees(
                    x.assignments@[i].1,
                    x2.assignments@[i].1,
                    y.assignments@[i].1,
                    y2.assignments@[i].1,
                    o,
                );
            }
            lemma_opt_shift_agrees(x.where_clause, x2.where_clause, y.where_clause, y2.where_clause, o);
            lemma_tables_shift_agrees(x.from_tables@, x2.from_tables@, y.from_tables@, y2.from_tables@, o);
        },
        StatementKind::Delete(x) => {
            let x2 = a2->Delete_0;
            let y = b->Delete_0;
            let y2 = b2->Delete_0;
            lemma_range_shift_agrees(x.table.range, x2.table.range, y.table.range, y2.table.range, o);
            lemma_opt_shift_agrees(x.where_clause, x2.where_clause, y.where_clause, y2.where_clause, o);
            lemma_tables_shift_agrees(x.using_tables@, x2.using_tables@, y.using_tables@, y2.using_tables@, o);
        },
        StatementKind::CreateTable(x) => {
            let x2 = a2->CreateTable_0;
            let y = b->CreateTable_0;
            let y2 = b2->CreateTable_0;
            lemma_range_shift_agrees(x.table.range, x2.table.range, y.table.range, y2.table.range, o);
            assert forall|i: int| 0 <= i < y.columns@.len() implies column_agrees(
                #[trigger] y.columns@[i],
                y2.columns@[i],
            ) by {
                assert(column_agrees(x.columns@[i], x2.columns@[i]));
                assert(column_shifted(x.columns@[i], y.columns@[i], o));
                assert(column_shifted(x2.columns@[i], y2.columns@[i], o));
                lemma_range_shift_agrees(
                    x.columns@[i].range,
                    x2.columns@[i].range,
                    y.columns@[i].range,
                    y2.columns@[i].range,
                    o,
                );
            }
        },
        StatementKind::AlterTable(x) => {
            lemma_range_shift_agrees(
                x.table.range,
                a2->AlterTable_0.table.range,
                b->AlterTable_0.table.range,
                b2->AlterTable_0.table.range,
                o,
            );
        },
        StatementKind::DropTable(x) => {
            lemma_tables_shift_agrees(x.tables@, a2->DropTable_0.tables@, b->DropTable_0.tables@, b2->DropTable_0.tables@, o);
        },
        _ => {},
    }
}

/// Two parsed documents agree field by field: the same statements (see
/// `kind_agrees_v`) at the same ranges, and the same errors at the same
/// ranges with the same messages.
pub open spec fn files_agree(a: ParsedFile, b: ParsedFile) -> bool {
    &&& a.statements@.len() == b.statements@.len()
    &&& forall|i: int|
        0 <= i < a.statements@.len() ==> range_agrees((#[trigger] a.statements@[i]).range, b.statements@[i].range)
            && kind_agrees_v(a.statements@[i].kind, b.statements@[i].kind)
    &&& a.errors@.len() == b.errors@.len()
    &&& forall|i: int|
        0 <= i < a.errors@.len() ==> range_agrees((#[trigger] a.errors@[i]).range, b.errors@[i].range)
            && a.errors@[i].message@ == b.errors@[i].message@
}

/// The Postgres path reads no dialect: two documents parsed from the same
/// chunks and the same parser answers, whatever dialect each call was
/// given, agree field by field: the same statements (see
/// `kind_agrees_v`) at the same ranges, and the same errors.
pub proof fn law_postgres_results_agree(
    chunks: Seq<(String, TextRange)>,
    results: Seq<Result<Vec<PgNode>, String>>,
    pf1: ParsedFile,
    pf2: ParsedFile,
)
    requires
        file_matches(pf1, doc_slots(chunks, results), doc_errors(chunks, results)),
        file_matches(pf2, doc_slots(chunks, results), doc_errors(chunks, results)),
    ensures
        files_agree(pf1, pf2),
{
    let slots = doc_slots(chunks, results);
    let errs = doc_errors(chunks, results);
    assert forall|i: int| 0 <= i < pf1.statements@.len() implies range_agrees(
        (#[trigger] pf1.statements@[i]).range,
        pf2.statements@[i].range,
    ) && kind_agrees_v(pf1.statements@[i].kind, pf2.statements@[i].kind) by {
        let s1 = pf1.statements@[i];
        let s2 = pf2.statements@[i];
        assert(is_slot(s1, slots[i]));
        assert(is_slot(s2, slots[i]));
        if let Some(n) = slots[i].node {
            let t = slots[i].text;
            let o = slots[i].start;
            let k1 = choose|k: StatementKind| #[trigger] stmt_matches(k, n, t) && kind_shifted(k, s1.kind, o);
            let k2 = choose|k: StatementKind| #[trigger] stmt_matches(k, n, t) && kind_shifted(k, s2.kind, o);
            lemma_conversion_agrees(k1, k2, n, t);
            lemma_shift_agrees(k1, k2, s1.kind, s2.kind, o);
        }
    }
    assert forall|i: int| 0 <= i < pf1.errors@.len() implies range_agrees(
        (#[trigger] pf1.errors@[i]).range,
        pf2.errors@[i].range,
    ) && pf1.errors@[i].message@ == pf2.errors@[i].message@ by {
        assert(is_error(pf1.errors@[i], errs[i]));
        assert(is_error(pf2.errors@[i], errs[i]));
    }
}

} // verus!

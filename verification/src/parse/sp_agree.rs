//! The conversion of a sqlparser statement fixes its result: two
//! conversions of one statement agree field by field (see
//! `pg_agree::kind_agrees_v`), and so do two documents parsed from the
//! same chunks and the same answers.

use vstd::prelude::*;
use crate::parse::ast::{Expr, ParsedFile, Projection, StatementKind};
use crate::parse::pg_agree::{
    column_agrees, expr_agrees, files_agree, join_agrees, kind_agrees_v, opt_agrees, proj_agrees, range_agrees,
};
use crate::parse::pg_parse::is_error;
use crate::parse::sp_convert::{from_joins, is_expr, is_item, is_sp_coldef, is_sp_join, is_sp_stmt, is_text_expr, texts};
use crate::parse::sp_node::{SpExpr, SpSelectItem, SpStatement};
use crate::parse::sp_parse::{is_sp_slot, sp_doc_errors, sp_doc_slots, sp_file_matches};
use crate::parse::range::TextRange;

verus! {

proof fn lemma_expr_agrees(a: Expr, b: Expr, e: SpExpr)
    requires
        is_expr(a, e),
        is_expr(b, e),
    ensures
        expr_agrees(a, b),
{
}

proof fn lemma_opt_expr_agrees(a: Option<Expr>, b: Option<Expr>, e: Option<SpExpr>)
    requires
        match e {
            Some(x) => a matches Some(y) && is_expr(y, x),
            None => a is None,
        },
        match e {
            Some(x) => b matches Some(y) && is_expr(y, x),
            None => b is None,
        },
    ensures
        opt_agrees(a, b),
{
    if let Some(x) = e {
        lemma_expr_agrees(a->0, b->0, x);
    }
}

proof fn lemma_text_expr_agrees(a: Option<Expr>, b: Option<Expr>, t: Option<String>)
    requires
        is_text_expr(a, t),
        is_text_expr(b, t),
    ensures
        opt_agrees(a, b),
{
}

proof fn lemma_item_agrees(a: Projection, b: Projection, p: SpSelectItem)
    requires
        is_item(a, p),
        is_item(b, p),
    ensures
        proj_agrees(a, b),
{
    match p {
        SpSelectItem::UnnamedExpr(e) => lemma_expr_agrees(a->Expr_expr, b->Expr_expr, e),
        SpSelectItem::ExprWithAlias { expr, .. } => lemma_expr_agrees(a->Expr_expr, b->Expr_expr, expr),
        _ => {},
    }
}

proof fn lemma_texts_deep(a: Vec<String>, b: Vec<String>)
    requires
        texts(a@) == texts(b@),
    ensures
        a.deep_view() == b.deep_view(),
{
    assert(a@.len() == texts(a@).len());
    assert(b@.len() == texts(b@).len());
    assert forall|i: int| 0 <= i < a@.len() implies a.deep_view()[i] == b.deep_view()[i] by {
        assert(texts(a@)[i] == texts(b@)[i]);
    }
    assert(a.deep_view() =~= b.deep_view());
}

/// Two conversions of one sqlparser statement agree field by field: the
/// conversion fixes its result.
pub proof fn lemma_sp_conversion_agrees(k1: StatementKind, k2: StatementKind, s: SpStatement)
    requires
        is_sp_stmt(k1, s),
        is_sp_stmt(k2, s),
    ensures
        kind_agrees_v(k1, k2),
{
    match s {
        SpStatement::Query(q) => {
            if let Some(sel) = q.select {
                let x = k1->Select_0;
                let y = k2->Select_0;
                assert forall|i: int| 0 <= i < x.projections@.len() implies proj_agrees(
                    #[trigger] x.projections@[i],
                    y.projections@[i],
                ) by {
                    lemma_item_agrees(x.projections@[i], y.projections@[i], sel.projection@[i]);
                }
                let js = from_joins(sel.from@);
                assert forall|i: int| 0 <= i < x.joins@.len() implies join_agrees(
                    #[trigger] x.joins@[i],
                    y.joins@[i],
                ) by {
                    assert(is_sp_join(x.joins@[i], js[i]));
                    assert(is_sp_join(y.joins@[i], js[i]));
                    if let Some(e) = crate::parse::sp_convert::op_on(js[i].join_operator) {
                        lemma_expr_agrees(x.joins@[i].on->0, y.joins@[i].on->0, e);
                    }
                }
                lemma_opt_expr_agrees(x.where_clause, y.where_clause, sel.selection);
                lemma_texts_deep(x.cte_names, y.cte_names);
            }
        },
        SpStatement::Insert { .. } => {
            lemma_texts_deep(k1->Insert_0.columns, k2->Insert_0.columns);
        },
        SpStatement::Update { assignments, selection, .. } => {
            let x = k1->Update_0;
            let y = k2->Update_0;
            assert forall|i: int| 0 <= i < x.assignments@.len() implies (#[trigger] y.assignments@[i]).0@
                == x.assignments@[i].0@ && expr_agrees(x.assignments@[i].1, y.assignments@[i].1) by {
                assert(x.assignments@[i].0@ == assignments@[i].0@);
                assert(y.assignments@[i].0@ == assignments@[i].0@);
            }
            lemma_text_expr_agrees(x.where_clause, y.where_clause, selection);
        },
        SpStatement::Delete { selection, .. } => {
            lemma_text_expr_agrees(k1->Delete_0.where_clause, k2->Delete_0.where_clause, selection);
        },
        SpStatement::CreateTable { columns, .. } => {
            let x = k1->CreateTable_0;
            let y = k2->CreateTable_0;
            assert forall|i: int| 0 <= i < x.columns@.len() implies column_agrees(
                #[trigger] x.columns@[i],
                y.columns@[i],
            ) by {
                assert(is_sp_coldef(x.columns@[i], columns@[i]));
                assert(is_sp_coldef(y.columns@[i], columns@[i]));
            }
        },
        _ => {},
    }
}

/// Two documents parsed by sqlparser from the same chunks and the same
/// answers agree field by field: the same statements (see
/// `kind_agrees_v`) at the same ranges, and the same errors.
pub proof fn law_sqlparser_results_agree(
    chunks: Seq<(String, TextRange)>,
    answers: Seq<Result<Seq<SpStatement>, Seq<char>>>,
    pf1: ParsedFile,
    pf2: ParsedFile,
)
    requires
        sp_file_matches(pf1, sp_doc_slots(chunks, answers), sp_doc_errors(chunks, answers)),
        sp_file_matches(pf2, sp_doc_slots(chunks, answers), sp_doc_errors(chunks, answers)),
    ensures
        files_agree(pf1, pf2),
{
    let slots = sp_doc_slots(chunks, answers);
    let errs = sp_doc_errors(chunks, answers);
    assert forall|i: int| 0 <= i < pf1.statements@.len() implies range_agrees(
        (#[trigger] pf1.statements@[i]).range,
        pf2.statements@[i].range,
    ) && kind_agrees_v(pf1.statements@[i].kind, pf2.statements@[i].kind) by {
        assert(is_sp_slot(pf1.statements@[i], slots[i]));
        assert(is_sp_slot(pf2.statements@[i], slots[i]));
        if let Some(x) = slots[i].stmt {
            lemma_sp_conversion_agrees(pf1.statements@[i].kind, pf2.statements@[i].kind, x);
        }
    }
    assert forall|i: int| 0 <= i < pf1.errors@.len() implies range_agrees(
        (#[trigger] pf1.errors@[i]).range,
        pf2.errors@[i].range,
    ) && pf1.errors@[i].message@ == pf2.errors@[i].message@ by {
        assert(is_error(pf1.errors@[i], errs[i]));
        assert(is_error(pf2.errors@[i], errs[i]));
    }
}

} // verus!

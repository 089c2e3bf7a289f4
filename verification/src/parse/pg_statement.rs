//! Postgres parse tree -> internal AST, statement by statement. Only the
//! slots downstream features use are filled:
//!
//! - CREATE TABLE -> `StatementKind::CreateTable` with its columns
//! - SELECT -> `StatementKind::Select` with projections, FROM tables,
//!   joins, the column references of WHERE, and CTE names
//! - INSERT / UPDATE / DELETE -> their variants with the target table
//! - ALTER TABLE / DROP TABLE -> their variants
//! - everything else -> `StatementKind::Unknown { text }`, so later stages
//!   still see the raw SQL

use vstd::prelude::*;
use crate::knowledge::render::join_with;
use crate::parse::ast::{
    AlterTableStmt, ColV, ColumnDef, CreateTableStmt, DeleteStmt, DropTableStmt, Expr, InsertStmt, JoinClause,
    Projection, SelectStmt, StatementKind, TableRef, TableRefV, UpdateStmt,
};
use crate::parse::range::TextRange;
use crate::text::{append_str, string_from_chars};
use crate::parse::pg_convert::{
    are_joins, appends_joins, clause_expr, col_refs, func_ref, is_clause, is_proj, join_fits, join_from,
    join_joins, opt_clause, rangevar_fits, rangevar_ref, rangevar_to_tableref, subq_ref, table_views,
    target_fits, target_proj, target_to_projection, walk_join, alias_name, alias_of, synthetic, string_parts,
    string_values, JoinV, ProjV,
};
use crate::parse::pg_node::{PgColumnDef, PgNode, PgRangeVar, PgSelectStmt, PgTypeName, PgWithClause};

verus! {

/// `ps` are the projections `vs`, in order.
pub open spec fn are_projs(ps: Seq<Projection>, vs: Seq<ProjV>) -> bool {
    &&& ps.len() == vs.len()
    &&& forall|i: int| 0 <= i < vs.len() ==> is_proj(#[trigger] ps[i], vs[i])
}

/// The projections of a SELECT target list: one per result target.
pub open spec fn target_projs(list: Seq<PgNode>) -> Seq<ProjV>
    decreases list.len(),
{
    if list.len() == 0 {
        Seq::<ProjV>::empty()
    } else {
        target_projs(list.drop_last()) + match list.last() {
            PgNode::ResTarget(t) => seq![target_proj(t)],
            _ => Seq::<ProjV>::empty(),
        }
    }
}

/// Every result target of a list has its column reference's byte range
/// within `u32`.
pub open spec fn targets_fit(list: Seq<PgNode>) -> bool {
    forall|i: int| 0 <= i < list.len() ==> (#[trigger] list[i] matches PgNode::ResTarget(t) ==> target_fits(t))
}

/// The FROM tables and joins of the first items of a FROM list: a range
/// var or an aliased function or sub-select adds a table, a join tree
/// adds its tables and its joins.
pub open spec fn from_state(list: Seq<PgNode>) -> (Seq<TableRefV>, Seq<JoinV>)
    decreases list.len(),
{
    if list.len() == 0 {
        (Seq::<TableRefV>::empty(), Seq::<JoinV>::empty())
    } else {
        let (f, js) = from_state(list.drop_last());
        match list.last() {
            PgNode::RangeVar(r) => (f.push(rangevar_ref(r)), js),
            PgNode::JoinExpr(j) => (f + join_from(*j), js + join_joins(*j)),
            PgNode::RangeFunction { alias } => match alias_name(alias) {
                Some(a) => (f.push(func_ref(a)), js),
                None => (f, js),
            },
            PgNode::RangeSubselect { alias } => match alias_name(alias) {
                Some(a) => (f.push(subq_ref(a)), js),
                None => (f, js),
            },
            _ => (f, js),
        }
    }
}

/// Every range var of a FROM list has its name token within `u32`.
pub open spec fn from_fits(list: Seq<PgNode>) -> bool {
    forall|i: int|
        0 <= i < list.len() ==> {
            &&& (#[trigger] list[i] matches PgNode::RangeVar(r) ==> rangevar_fits(r))
            &&& (list[i] matches PgNode::JoinExpr(j) ==> join_fits(*j))
        }
}

/// The names of the common table expressions of a list.
pub open spec fn cte_list(list: Seq<PgNode>) -> Seq<Seq<char>>
    decreases list.len(),
{
    if list.len() == 0 {
        Seq::<Seq<char>>::empty()
    } else {
        cte_list(list.drop_last()) + match list.last() {
            PgNode::CommonTableExpr { ctename } => seq![ctename@],
            _ => Seq::<Seq<char>>::empty(),
        }
    }
}

/// The CTE names of an optional `WITH` clause.
pub open spec fn with_names(w: Option<PgWithClause>) -> Seq<Seq<char>> {
    match w {
        Some(wc) => cte_list(wc.ctes@),
        None => Seq::<Seq<char>>::empty(),
    }
}

/// The byte ranges a SELECT's conversion computes stay within `u32`.
pub open spec fn select_fits(s: PgSelectStmt) -> bool {
    targets_fit(s.target_list@) && from_fits(s.from_clause@)
}

/// `out` is the SELECT `s`: its projections, FROM tables and joins (see
/// `from_state`), the column references of its WHERE clause, and its
/// CTE names.
pub open spec fn select_matches(out: SelectStmt, s: PgSelectStmt) -> bool {
    &&& are_projs(out.projections@, target_projs(s.target_list@))
    &&& table_views(out.from@) == from_state(s.from_clause@).0
    &&& are_joins(out.joins@, from_state(s.from_clause@).1)
    &&& is_clause(out.where_clause, opt_clause(s.where_clause))
    &&& out.cte_names.deep_view() == with_names(s.with_clause)
}

proof fn lemma_joins_extend(a: Seq<JoinClause>, b: Seq<JoinClause>, x: Seq<JoinV>, y: Seq<JoinV>)
    requires
        are_joins(a, x),
        appends_joins(a, b, y),
    ensures
        are_joins(b, x + y),
{
    assert forall|i: int| 0 <= i < (x + y).len() implies crate::parse::pg_convert::is_join(
        #[trigger] b[i],
        (x + y)[i],
    ) by {
        if i < x.len() {
            assert(b[i] == b.take(a.len() as int)[i]);
        } else {
            assert(b[i] == b.skip(a.len() as int)[i - x.len()]);
        }
    }
}

/// The CTE names of an optional `WITH` clause (see `with_names`).
fn cte_names_of(w: &Option<PgWithClause>) -> (r: Vec<String>)
    ensures
        r.deep_view() == with_names(*w),
{
    let mut r: Vec<String> = Vec::new();
    if let Some(wc) = w {
        let mut i: usize = 0;
        while i < wc.ctes.len()
            invariant
                0 <= i <= wc.ctes@.len(),
                r.deep_view() == cte_list(wc.ctes@.take(i as int)),
            decreases wc.ctes@.len() - i,
        {
            let ghost before = r.deep_view();
            assert(wc.ctes@.take(i + 1).drop_last() =~= wc.ctes@.take(i as int));
            if let PgNode::CommonTableExpr { ctename } = &wc.ctes[i] {
                r.push(ctename.clone());
                assert(r.deep_view() =~= before + seq![ctename@]);
            } else {
                assert(before + Seq::<Seq<char>>::empty() =~= before);
            }
            i += 1;
        }
        assert(wc.ctes@.take(i as int) =~= wc.ctes@);
    } else {
        assert(r.deep_view() =~= Seq::<Seq<char>>::empty());
    }
    r
}

/// The projections of a SELECT target list (see `target_projs`).
fn projections_of(list: &Vec<PgNode>) -> (r: Vec<Projection>)
    requires
        targets_fit(list@),
    ensures
        are_projs(r@, target_projs(list@)),
{
    let mut r: Vec<Projection> = Vec::new();
    let mut i: usize = 0;
    while i < list.len()
        invariant
            0 <= i <= list@.len(),
            targets_fit(list@),
            are_projs(r@, target_projs(list@.take(i as int))),
        decreases list@.len() - i,
    {
        assert(list@.take(i + 1).drop_last() =~= list@.take(i as int));
        let ghost before = r@;
        if let PgNode::ResTarget(t) = &list[i] {
            let p = target_to_projection(t);
            r.push(p);
            assert(r@ == before.push(p));
        }
        i += 1;
    }
    assert(list@.take(i as int) =~= list@);
    r
}

/// The SELECT `s` in the internal AST (see `select_matches`).
pub fn select(s: &PgSelectStmt) -> (out: SelectStmt)
    requires
        select_fits(*s),
    ensures
        select_matches(out, *s),
{
    let mut from: Vec<TableRef> = Vec::new();
    let mut joins: Vec<JoinClause> = Vec::new();
    let list = &s.from_clause;
    let mut i: usize = 0;
    assert(table_views(from@) =~= Seq::<TableRefV>::empty());
    while i < list.len()
        invariant
            0 <= i <= list@.len(),
            list == &s.from_clause,
            from_fits(list@),
            table_views(from@) == from_state(list@.take(i as int)).0,
            are_joins(joins@, from_state(list@.take(i as int)).1),
        decreases list@.len() - i,
    {
        assert(list@.take(i + 1).drop_last() =~= list@.take(i as int));
        let ghost f0 = from@;
        let ghost j0 = joins@;
        let ghost st = from_state(list@.take(i as int));
        assert(list@[i as int] == list@.take(i + 1).last());
        match &list[i] {
            PgNode::RangeVar(r) => {
                assert(list@[i as int] matches PgNode::RangeVar(_));
                let t = rangevar_to_tableref(r);
                from.push(t);
                assert(table_views(from@) =~= table_views(f0).push(t@));
            },
            PgNode::JoinExpr(j) => {
                assert(list@[i as int] matches PgNode::JoinExpr(_));
                walk_join(j, &mut from, &mut joins);
                proof {
                    lemma_joins_extend(j0, joins@, st.1, join_joins(**j));
                }
            },
            PgNode::RangeFunction { alias } => {
                if let Some(a) = alias_of(alias) {
                    let t = synthetic("<func>", a);
                    from.push(t);
                    assert(table_views(from@) =~= table_views(f0).push(t@));
                }
            },
            PgNode::RangeSubselect { alias } => {
                if let Some(a) = alias_of(alias) {
                    let t = synthetic("<subq>", a);
                    from.push(t);
                    assert(table_views(from@) =~= table_views(f0).push(t@));
                }
            },
            _ => {},
        }
        i += 1;
    }
    assert(list@.take(i as int) =~= list@);
    SelectStmt {
        projections: projections_of(&s.target_list),
        from,
        joins,
        where_clause: clause_expr(&s.where_clause),
        cte_names: cte_names_of(&s.with_clause),
    }
}

/// The nameless table reference at the empty range, as plain values.
pub open spec fn unnamed_ref() -> TableRefV {
    TableRefV { schema: None, name: Seq::<char>::empty(), alias: None, start: 0, end: 0 }
}

/// The target table of a statement: its range var, else the nameless one.
pub open spec fn relation_ref(r: Option<PgRangeVar>) -> TableRefV {
    match r {
        Some(x) => rangevar_ref(x),
        None => unnamed_ref(),
    }
}

/// A statement's target range var, if any, has its name token within `u32`.
pub open spec fn relation_fits(r: Option<PgRangeVar>) -> bool {
    match r {
        Some(x) => rangevar_fits(x),
        None => true,
    }
}

/// The target table of a statement (see `relation_ref`).
fn relation_table(r: &Option<PgRangeVar>) -> (t: TableRef)
    requires
        relation_fits(*r),
    ensures
        t@ == relation_ref(*r),
{
    match r {
        Some(x) => rangevar_to_tableref(x),
        None => TableRef::unnamed(),
    }
}

/// The names of the result targets of a list (`INSERT` columns).
pub open spec fn target_names(list: Seq<PgNode>) -> Seq<Seq<char>>
    decreases list.len(),
{
    if list.len() == 0 {
        Seq::<Seq<char>>::empty()
    } else {
        target_names(list.drop_last()) + match list.last() {
            PgNode::ResTarget(t) => seq![t.name@],
            _ => Seq::<Seq<char>>::empty(),
        }
    }
}

/// The names of the result targets of a list that have one (`UPDATE`
/// assignments).
pub open spec fn set_names(list: Seq<PgNode>) -> Seq<Seq<char>>
    decreases list.len(),
{
    if list.len() == 0 {
        Seq::<Seq<char>>::empty()
    } else {
        set_names(list.drop_last()) + match list.last() {
            PgNode::ResTarget(t) => if t.name@.len() > 0 {
                seq![t.name@]
            } else {
                Seq::<Seq<char>>::empty()
            },
            _ => Seq::<Seq<char>>::empty(),
        }
    }
}

/// The tables of the range vars of a list (`UPDATE ... FROM`,
/// `DELETE ... USING`); joins, functions and sub-selects are skipped.
pub open spec fn range_var_refs(list: Seq<PgNode>) -> Seq<TableRefV>
    decreases list.len(),
{
    if list.len() == 0 {
        Seq::<TableRefV>::empty()
    } else {
        range_var_refs(list.drop_last()) + match list.last() {
            PgNode::RangeVar(r) => seq![rangevar_ref(r)],
            _ => Seq::<TableRefV>::empty(),
        }
    }
}

/// Every range var of a list has its name token within `u32`.
pub open spec fn ranges_fit(list: Seq<PgNode>) -> bool {
    forall|i: int| 0 <= i < list.len() ==> (#[trigger] list[i] matches PgNode::RangeVar(r) ==> rangevar_fits(r))
}

/// `a` are assignments to the columns `names`, each with an unmodelled,
/// empty expression.
pub open spec fn are_assignments(a: Seq<(String, Expr)>, names: Seq<Seq<char>>) -> bool {
    &&& a.len() == names.len()
    &&& forall|i: int|
        0 <= i < names.len() ==> {
            &&& (#[trigger] a[i]).0@ == names[i]
            &&& a[i].1 matches Expr::Other(t)
            &&& t@.len() == 0
        }
}

/// The names of the result targets of a list (see `target_names`).
fn target_name_values(list: &Vec<PgNode>) -> (r: Vec<String>)
    ensures
        r.deep_view() == target_names(list@),
{
    let mut r: Vec<String> = Vec::new();
    let mut i: usize = 0;
    while i < list.len()
        invariant
            0 <= i <= list@.len(),
            r.deep_view() == target_names(list@.take(i as int)),
        decreases list@.len() - i,
    {
        assert(list@.take(i + 1).drop_last() =~= list@.take(i as int));
        let ghost before = r.deep_view();
        if let PgNode::ResTarget(t) = &list[i] {
            r.push(t.name.clone());
            assert(r.deep_view() =~= before + seq![t.name@]);
        } else {
            assert(before + Seq::<Seq<char>>::empty() =~= before);
        }
        i += 1;
    }
    assert(list@.take(i as int) =~= list@);
    r
}

/// The assignments of an `UPDATE` target list (see `set_names`).
fn assignments_of(list: &Vec<PgNode>) -> (r: Vec<(String, Expr)>)
    ensures
        are_assignments(r@, set_names(list@)),
{
    let mut r: Vec<(String, Expr)> = Vec::new();
    let mut i: usize = 0;
    while i < list.len()
        invariant
            0 <= i <= list@.len(),
            are_assignments(r@, set_names(list@.take(i as int))),
        decreases list@.len() - i,
    {
        assert(list@.take(i + 1).drop_last() =~= list@.take(i as int));
        let ghost names = set_names(list@.take(i as int));
        if let PgNode::ResTarget(t) = &list[i] {
            if !t.name.as_str().is_empty() {
                r.push((t.name.clone(), Expr::Other(String::new())));
                assert(set_names(list@.take(i + 1)) =~= names + seq![t.name@]);
            } else {
                assert(set_names(list@.take(i + 1)) =~= names);
            }
        } else {
            assert(set_names(list@.take(i + 1)) =~= names);
        }
        i += 1;
    }
    assert(list@.take(i as int) =~= list@);
    r
}

/// The tables of the range vars of a list (see `range_var_refs`).
pub fn collect_dml_from_tables(list: &Vec<PgNode>) -> (r: Vec<TableRef>)
    requires
        ranges_fit(list@),
    ensures
        table_views(r@) == range_var_refs(list@),
{
    let mut r: Vec<TableRef> = Vec::new();
    let mut i: usize = 0;
    assert(table_views(r@) =~= Seq::<TableRefV>::empty());
    while i < list.len()
        invariant
            0 <= i <= list@.len(),
            ranges_fit(list@),
            table_views(r@) == range_var_refs(list@.take(i as int)),
        decreases list@.len() - i,
    {
        assert(list@.take(i + 1).drop_last() =~= list@.take(i as int));
        let ghost before = r@;
        if let PgNode::RangeVar(v) = &list[i] {
            assert(list@[i as int] matches PgNode::RangeVar(_));
            let t = rangevar_to_tableref(v);
            r.push(t);
            assert(table_views(r@) =~= table_views(before) + seq![t@]);
        } else {
            assert(table_views(r@) =~= table_views(before) + Seq::<TableRefV>::empty());
        }
        i += 1;
    }
    assert(list@.take(i as int) =~= list@);
    r
}

/// The tables a `DROP` names: each object that is a list of one or two
/// identifiers, as `name` or `schema.name`; other objects are skipped.
pub open spec fn drop_refs(objects: Seq<PgNode>) -> Seq<TableRefV>
    decreases objects.len(),
{
    if objects.len() == 0 {
        Seq::<TableRefV>::empty()
    } else {
        drop_refs(objects.drop_last()) + match objects.last() {
            PgNode::List { items } => {
                let p = string_parts(items@, items@.len());
                if p.len() == 2 {
                    seq![TableRefV { schema: Some(p[0]), name: p[1], alias: None, start: 0, end: 0 }]
                } else if p.len() == 1 {
                    seq![TableRefV { schema: None, name: p[0], alias: None, start: 0, end: 0 }]
                } else {
                    Seq::<TableRefV>::empty()
                }
            },
            _ => Seq::<TableRefV>::empty(),
        }
    }
}

/// The tables a `DROP` names (see `drop_refs`) and whether it is
/// `IF EXISTS`.
pub fn drop_table(objects: &Vec<PgNode>, missing_ok: bool) -> (d: DropTableStmt)
    ensures
        table_views(d.tables@) == drop_refs(objects@),
        d.if_exists == missing_ok,
{
    let mut tables: Vec<TableRef> = Vec::new();
    let mut i: usize = 0;
    assert(table_views(tables@) =~= Seq::<TableRefV>::empty());
    while i < objects.len()
        invariant
            0 <= i <= objects@.len(),
            table_views(tables@) == drop_refs(objects@.take(i as int)),
        decreases objects@.len() - i,
    {
        assert(objects@.take(i + 1).drop_last() =~= objects@.take(i as int));
        let ghost before = tables@;
        if let PgNode::List { items } = &objects[i] {
            let parts = string_values(items);
            let ghost p = parts.deep_view();
            if parts.len() == 2 {
                assert(p[0] == parts@[0]@ && p[1] == parts@[1]@);
                let t = TableRef {
                    schema: Some(parts[0].clone()),
                    name: parts[1].clone(),
                    alias: None,
                    range: TextRange::empty(),
                };
                tables.push(t);
                assert(table_views(tables@) =~= table_views(before) + seq![t@]);
            } else if parts.len() == 1 {
                assert(p[0] == parts@[0]@);
                let t = TableRef { schema: None, name: parts[0].clone(), alias: None, range: TextRange::empty() };
                tables.push(t);
                assert(table_views(tables@) =~= table_views(before) + seq![t@]);
            } else {
                assert(table_views(tables@) =~= table_views(before) + Seq::<TableRefV>::empty());
            }
        } else {
            assert(table_views(tables@) =~= table_views(before) + Seq::<TableRefV>::empty());
        }
        i += 1;
    }
    assert(objects@.take(i as int) =~= objects@);
    DropTableStmt { tables, if_exists: missing_ok }
}

/// `n` repetitions of `[]`.
pub open spec fn brackets(n: nat) -> Seq<char>
    decreases n,
{
    if n == 0 {
        Seq::<char>::empty()
    } else {
        brackets((n - 1) as nat) + "[]"@
    }
}

/// The SQL text of a column type: its name parts joined by dots, then
/// `[]` per array dimension; empty without a type.
pub open spec fn type_text(t: Option<PgTypeName>) -> Seq<char> {
    match t {
        Some(tn) => join_with(string_parts(tn.names@, tn.names@.len()), "."@) + brackets(tn.array_bounds@.len()),
        None => Seq::<char>::empty(),
    }
}

/// A column is nullable unless one of its constraints is `NOT NULL` or
/// `PRIMARY KEY` (`ConstrType` 2 or 7).
pub open spec fn cons_nullable(cons: Seq<PgNode>) -> bool {
    !exists|i: int| 0 <= i < cons.len() && forbids_null(#[trigger] cons[i])
}

/// A `NOT NULL` or `PRIMARY KEY` constraint (`ConstrType` 2 or 7).
pub open spec fn forbids_null(n: PgNode) -> bool {
    match n {
        PgNode::Constraint { contype, .. } => contype == 2 || contype == 7,
        _ => false,
    }
}

/// A column's default: the expression text of its last `DEFAULT`
/// constraint (`ConstrType` 3) whose text is not empty.
pub open spec fn cons_default(cons: Seq<PgNode>) -> Option<Seq<char>>
    decreases cons.len(),
{
    if cons.len() == 0 {
        None
    } else {
        match cons.last() {
            PgNode::Constraint { contype, cooked_expr } => if contype == 3 && cooked_expr@.len() > 0 {
                Some(cooked_expr@)
            } else {
                cons_default(cons.drop_last())
            },
            _ => cons_default(cons.drop_last()),
        }
    }
}

/// `c` is the column definition `d`.
pub open spec fn coldef_matches(c: ColumnDef, d: PgColumnDef) -> bool {
    &&& c.name@ == d.colname@
    &&& c.sql_type@ == type_text(d.col_type)
    &&& c.nullable == cons_nullable(d.constraints@)
    &&& c.default.deep_view() == cons_default(d.constraints@)
    &&& c.range.start_spec() == 0
    &&& c.range.end_spec() == 0
}

/// The expression text of a constraint: its cooked expression (empty
/// when there is none).
pub fn raw_expr_string(cooked_expr: &String) -> (r: String)
    ensures
        r@ == cooked_expr@,
{
    if !cooked_expr.as_str().is_empty() {
        return cooked_expr.clone();
    }
    String::new()
}

/// The SQL text of a column type (see `type_text`).
fn type_text_of(t: &Option<PgTypeName>) -> (r: String)
    ensures
        r@ == type_text(*t),
{
    match t {
        Some(tn) => {
            let parts = string_values(&tn.names);
            let ghost p = parts.deep_view();
            let mut out: Vec<char> = Vec::new();
            let mut i: usize = 0;
            while i < parts.len()
                invariant
                    0 <= i <= parts@.len() == p.len(),
                    p == parts.deep_view(),
                    out@ == join_with(p.take(i as int), "."@),
                decreases parts@.len() - i,
            {
                assert(p.take(i + 1).drop_last() =~= p.take(i as int));
                assert(p[i as int] == parts@[i as int]@);
                if i > 0 {
                    append_str(&mut out, ".");
                }
                append_str(&mut out, parts[i].as_str());
                proof {
                    if i == 0 {
                        assert(out@ =~= p.take(1)[0]);
                    }
                }
                i += 1;
            }
            assert(p.take(i as int) =~= p);
            let mut k: usize = 0;
            let ghost base = out@;
            while k < tn.array_bounds.len()
                invariant
                    0 <= k <= tn.array_bounds@.len(),
                    out@ == base + brackets(k as nat),
                decreases tn.array_bounds@.len() - k,
            {
                append_str(&mut out, "[]");
                assert(out@ =~= base + brackets((k + 1) as nat));
                k += 1;
            }
            string_from_chars(&out)
        },
        None => String::new(),
    }
}

/// The column definition in the internal AST (see `coldef_matches`).
pub fn column_def(c: &PgColumnDef) -> (col: ColumnDef)
    ensures
        coldef_matches(col, *c),
{
    let sql_type = type_text_of(&c.col_type);
    let mut nullable = true;
    let mut default: Option<String> = None;
    let cons = &c.constraints;
    let mut i: usize = 0;
    while i < cons.len()
        invariant
            0 <= i <= cons@.len(),
            nullable == cons_nullable(cons@.take(i as int)),
            default.deep_view() == cons_default(cons@.take(i as int)),
        decreases cons@.len() - i,
    {
        assert(cons@.take(i + 1).drop_last() =~= cons@.take(i as int));
        assert(cons@.take(i + 1).last() == cons@[i as int]);
        if let PgNode::Constraint { contype, cooked_expr } = &cons[i] {
            if *contype == 2 || *contype == 7 {
                nullable = false;
                assert(cons@.take(i + 1)[i as int] == cons@[i as int]);
            } else if *contype == 3 && !raw_expr_string(cooked_expr).as_str().is_empty() {
                default = Some(raw_expr_string(cooked_expr));
            }
        }
        proof {
            if nullable {
                assert forall|j: int| 0 <= j < i + 1 implies !forbids_null(#[trigger] cons@.take(i + 1)[j]) by {
                    if j < i {
                        assert(cons@.take(i + 1)[j] == cons@.take(i as int)[j]);
                    }
                }
            }
        }
        i += 1;
    }
    assert(cons@.take(i as int) =~= cons@);
    ColumnDef { name: c.colname.clone(), sql_type, nullable, default, range: TextRange::empty() }
}

/// The column definitions among a `CREATE TABLE`'s elements.
pub open spec fn col_defs(elts: Seq<PgNode>) -> Seq<PgColumnDef>
    decreases elts.len(),
{
    if elts.len() == 0 {
        Seq::<PgColumnDef>::empty()
    } else {
        col_defs(elts.drop_last()) + match elts.last() {
            PgNode::ColumnDef(c) => seq![c],
            _ => Seq::<PgColumnDef>::empty(),
        }
    }
}

/// `cs` are the column definitions `ds`, in order.
pub open spec fn are_coldefs(cs: Seq<ColumnDef>, ds: Seq<PgColumnDef>) -> bool {
    &&& cs.len() == ds.len()
    &&& forall|i: int| 0 <= i < ds.len() ==> coldef_matches(#[trigger] cs[i], ds[i])
}

/// The `CREATE TABLE` in the internal AST: its table, `IF NOT EXISTS`,
/// and its column definitions in order.
pub fn create_table(relation: &Option<PgRangeVar>, table_elts: &Vec<PgNode>, if_not_exists: bool) -> (c:
    CreateTableStmt)
    requires
        relation_fits(*relation),
    ensures
        c.table@ == relation_ref(*relation),
        c.if_not_exists == if_not_exists,
        are_coldefs(c.columns@, col_defs(table_elts@)),
{
    let table = relation_table(relation);
    let mut columns: Vec<ColumnDef> = Vec::new();
    let mut i: usize = 0;
    while i < table_elts.len()
        invariant
            0 <= i <= table_elts@.len(),
            are_coldefs(columns@, col_defs(table_elts@.take(i as int))),
        decreases table_elts@.len() - i,
    {
        assert(table_elts@.take(i + 1).drop_last() =~= table_elts@.take(i as int));
        if let PgNode::ColumnDef(c) = &table_elts[i] {
            let col = column_def(c);
            columns.push(col);
        }
        i += 1;
    }
    assert(table_elts@.take(i as int) =~= table_elts@);
    CreateTableStmt { table, if_not_exists, columns }
}

/// The `INSERT` in the internal AST: its table and target columns.
pub fn insert(relation: &Option<PgRangeVar>, cols: &Vec<PgNode>) -> (i: InsertStmt)
    requires
        relation_fits(*relation),
    ensures
        i.table@ == relation_ref(*relation),
        i.columns.deep_view() == target_names(cols@),
{
    InsertStmt { table: relation_table(relation), columns: target_name_values(cols) }
}

/// The `UPDATE` in the internal AST: its table, the columns it sets,
/// the column references of its WHERE clause and its FROM tables.
pub fn update(
    relation: &Option<PgRangeVar>,
    target_list: &Vec<PgNode>,
    from_clause: &Vec<PgNode>,
    where_clause: &Option<Box<PgNode>>,
) -> (u: UpdateStmt)
    requires
        relation_fits(*relation),
        ranges_fit(from_clause@),
    ensures
        u.table@ == relation_ref(*relation),
        are_assignments(u.assignments@, set_names(target_list@)),
        is_clause(u.where_clause, opt_clause(*where_clause)),
        table_views(u.from_tables@) == range_var_refs(from_clause@),
{
    let table = relation_table(relation);
    let assignments = assignments_of(target_list);
    let from_tables = collect_dml_from_tables(from_clause);
    UpdateStmt { table, assignments, where_clause: clause_expr(where_clause), from_tables }
}

/// The `DELETE` in the internal AST: its table, the column references of
/// its WHERE clause and its USING tables.
pub fn delete(relation: &Option<PgRangeVar>, using_clause: &Vec<PgNode>, where_clause: &Option<Box<PgNode>>) -> (d:
    DeleteStmt)
    requires
        relation_fits(*relation),
        ranges_fit(using_clause@),
    ensures
        d.table@ == relation_ref(*relation),
        is_clause(d.where_clause, opt_clause(*where_clause)),
        table_views(d.using_tables@) == range_var_refs(using_clause@),
{
    let table = relation_table(relation);
    let using_tables = collect_dml_from_tables(using_clause);
    DeleteStmt { table, where_clause: clause_expr(where_clause), using_tables }
}

/// The `ALTER TABLE` in the internal AST: its table.
pub fn alter_table(relation: &Option<PgRangeVar>) -> (a: AlterTableStmt)
    requires
        relation_fits(*relation),
    ensures
        a.table@ == relation_ref(*relation),
{
    AlterTableStmt { table: relation_table(relation) }
}

/// The byte ranges the conversion of a statement computes stay within
/// `u32`.
pub open spec fn stmt_fits(node: PgNode) -> bool {
    match node {
        PgNode::CreateStmt { relation, .. } => relation_fits(relation),
        PgNode::SelectStmt(s) => select_fits(*s),
        PgNode::InsertStmt { relation, .. } => relation_fits(relation),
        PgNode::UpdateStmt { relation, from_clause, .. } => relation_fits(relation) && ranges_fit(from_clause@),
        PgNode::DeleteStmt { relation, using_clause, .. } => relation_fits(relation) && ranges_fit(using_clause@),
        PgNode::AlterTableStmt { relation } => relation_fits(relation),
        _ => true,
    }
}

/// `k` is the statement `node` (whose source text is `text`) in the
/// internal AST: `CREATE TABLE`, `SELECT`, `INSERT`, `UPDATE`, `DELETE`,
/// `ALTER TABLE` and `DROP TABLE` as their variants, anything else (other
/// `DROP`s included) as
/// `Unknown` with the text.
pub open spec fn stmt_matches(k: StatementKind, node: PgNode, text: Seq<char>) -> bool {
    match node {
        PgNode::CreateStmt { relation, table_elts, if_not_exists } => {
            &&& k matches StatementKind::CreateTable(c)
            &&& c.table@ == relation_ref(relation)
            &&& c.if_not_exists == if_not_exists
            &&& are_coldefs(c.columns@, col_defs(table_elts@))
        },
        PgNode::SelectStmt(s) => k matches StatementKind::Select(x) && select_matches(x, *s),
        PgNode::InsertStmt { relation, cols } => {
            &&& k matches StatementKind::Insert(i)
            &&& i.table@ == relation_ref(relation)
            &&& i.columns.deep_view() == target_names(cols@)
        },
        PgNode::UpdateStmt { relation, target_list, from_clause, where_clause } => {
            &&& k matches StatementKind::Update(u)
            &&& u.table@ == relation_ref(relation)
            &&& are_assignments(u.assignments@, set_names(target_list@))
            &&& is_clause(u.where_clause, opt_clause(where_clause))
            &&& table_views(u.from_tables@) == range_var_refs(from_clause@)
        },
        PgNode::DeleteStmt { relation, using_clause, where_clause } => {
            &&& k matches StatementKind::Delete(d)
            &&& d.table@ == relation_ref(relation)
            &&& is_clause(d.where_clause, opt_clause(where_clause))
            &&& table_views(d.using_tables@) == range_var_refs(using_clause@)
        },
        PgNode::AlterTableStmt { relation } => k matches StatementKind::AlterTable(a) && a.table@ == relation_ref(
            relation,
        ),
        PgNode::DropStmt { remove_type, objects, missing_ok } => if remove_type == 42 {
            &&& k matches StatementKind::DropTable(d)
            &&& table_views(d.tables@) == drop_refs(objects@)
            &&& d.if_exists == missing_ok
        } else {
            k matches StatementKind::Unknown { text: t } && t@ == text
        },
        _ => k matches StatementKind::Unknown { text: t } && t@ == text,
    }
}

/// The statement `node`, whose source text is `text`, in the internal
/// AST (see `stmt_matches`).
pub fn statement(node: &PgNode, text: &str) -> (k: StatementKind)
    requires
        stmt_fits(*node),
    ensures
        stmt_matches(k, *node, text@),
{
    match node {
        PgNode::CreateStmt { relation, table_elts, if_not_exists } => StatementKind::CreateTable(
            create_table(relation, table_elts, *if_not_exists),
        ),
        PgNode::SelectStmt(s) => StatementKind::Select(select(s)),
        PgNode::InsertStmt { relation, cols } => StatementKind::Insert(insert(relation, cols)),
        PgNode::UpdateStmt { relation, target_list, from_clause, where_clause } => StatementKind::Update(
            update(relation, target_list, from_clause, where_clause),
        ),
        PgNode::DeleteStmt { relation, using_clause, where_clause } => StatementKind::Delete(
            delete(relation, using_clause, where_clause),
        ),
        PgNode::AlterTableStmt { relation } => StatementKind::AlterTable(alter_table(relation)),
        PgNode::DropStmt { remove_type, objects, missing_ok } => if *remove_type == 42 {
            StatementKind::DropTable(drop_table(objects, *missing_ok))
        } else {
            StatementKind::Unknown { text: text.to_owned() }
        },
        _ => StatementKind::Unknown { text: text.to_owned() },
    }
}

/// `PRIMARY KEY` implies `NOT NULL`: a column converted from a
/// definition with a primary-key constraint is not nullable.
pub proof fn law_primary_key_not_null(col: ColumnDef, d: PgColumnDef, i: int)
    requires
        coldef_matches(col, d),
        0 <= i < d.constraints@.len(),
        d.constraints@[i] is Constraint,
        d.constraints@[i]->Constraint_contype == 7,
    ensures
        !col.nullable,
{
    assert(forbids_null(d.constraints@[i]));
}

/// A statement of a kind the conversion does not model comes out as
/// `Unknown` carrying its source text, so later stages still see it.
pub proof fn law_unmodelled_statement_keeps_text(k: StatementKind, node: PgNode, text: Seq<char>)
    requires
        stmt_matches(k, node, text),
        !(node is CreateStmt || node is SelectStmt || node is InsertStmt || node is UpdateStmt
            || node is DeleteStmt || node is AlterTableStmt || (node is DropStmt
            && node->DropStmt_remove_type == 42)),
    ensures
        k matches StatementKind::Unknown { text: t } && t@ == text,
{
}

} // verus!

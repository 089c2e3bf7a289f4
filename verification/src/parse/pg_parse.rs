//! The Postgres backend: turns the parse trees of a document's
//! statements into the internal AST, with byte ranges relative to the
//! whole document.

use vstd::prelude::*;
use crate::parse::ast::{
    AlterTableStmt, ColumnDef, CreateTableStmt, DeleteStmt, DropTableStmt, Expr, InsertStmt, JoinClause, ParseError,
    ParsedFile, Projection, SelectStmt, Statement, StatementKind, TableRef, UpdateStmt,
};
use crate::parse::dialect::Dialect;
use crate::parse::range::TextRange;
use crate::text::{append_str, chars_of, string_from_chars};
use crate::parse::pg_node::PgNode;
use crate::parse::pg_statement::{statement, stmt_fits, stmt_matches};

verus! {

/// `b` is the range `a` moved `off` bytes later when `a` spans at least
/// one byte; an empty range (a position nobody recorded) stays as it is.
pub open spec fn range_shifted(a: TextRange, b: TextRange, off: u32) -> bool {
    if a.start_spec() < a.end_spec() {
        b.start_spec() == a.start_spec() + off && b.end_spec() == a.end_spec() + off
    } else {
        b == a
    }
}

/// Moving the range `a` by `off` (see `range_shifted`) stays within `u32`.
pub open spec fn range_fits(a: TextRange, off: u32) -> bool {
    a.start_spec() < a.end_spec() ==> a.end_spec() + off <= u32::MAX
}

fn shift_range(r: TextRange, off: u32) -> (s: TextRange)
    requires
        range_fits(r, off),
    ensures
        range_shifted(r, s, off),
{
    if r.len() > 0 {
        TextRange::new(r.start() + off, r.end() + off)
    } else {
        r
    }
}

/// `b` is the expression `a` with the range of every column reference
/// moved (see `range_shifted`), through binary operators, call arguments
/// and lists.
pub open spec fn expr_shifted(a: Expr, b: Expr, off: u32) -> bool
    decreases a,
{
    match a {
        Expr::Column { qualifier, name, range } => {
            &&& b matches Expr::Column { qualifier: q2, name: n2, range: r2 }
            &&& q2 == qualifier
            &&& n2 == name
            &&& range_shifted(range, r2, off)
        },
        Expr::BinaryOp { op, left, right } => {
            &&& b matches Expr::BinaryOp { op: o2, left: l2, right: r2 }
            &&& o2 == op
            &&& expr_shifted(*left, *l2, off)
            &&& expr_shifted(*right, *r2, off)
        },
        Expr::Call { name, args } => {
            &&& b matches Expr::Call { name: n2, args: a2 }
            &&& n2 == name
            &&& a2@.len() == args@.len()
            &&& forall|i: int| 0 <= i < args@.len() ==> expr_shifted(#[trigger] args@[i], a2@[i], off)
        },
        Expr::List(items) => {
            &&& b matches Expr::List(i2)
            &&& i2@.len() == items@.len()
            &&& forall|i: int| 0 <= i < items@.len() ==> expr_shifted(#[trigger] items@[i], i2@[i], off)
        },
        _ => b == a,
    }
}

/// Moving the ranges of `e` by `off` (see `expr_shifted`) stays within
/// `u32`.
pub open spec fn expr_fits(e: Expr, off: u32) -> bool
    decreases e,
{
    match e {
        Expr::Column { range, .. } => range_fits(range, off),
        Expr::BinaryOp { left, right, .. } => expr_fits(*left, off) && expr_fits(*right, off),
        Expr::Call { args, .. } => forall|i: int| 0 <= i < args@.len() ==> expr_fits(#[trigger] args@[i], off),
        Expr::List(items) => forall|i: int| 0 <= i < items@.len() ==> expr_fits(#[trigger] items@[i], off),
        _ => true,
    }
}

/// The expressions `v` each with its ranges moved by `off`; `e` is the
/// expression that holds them, for the termination measure.
fn shift_exprs(v: Vec<Expr>, off: u32, Ghost(e): Ghost<Expr>) -> (r: Vec<Expr>)
    requires
        forall|i: int| 0 <= i < v@.len() ==> expr_fits(#[trigger] v@[i], off),
        forall|i: int| 0 <= i < v@.len() ==> decreases_to!(e => #[trigger] v@[i]),
    ensures
        r@.len() == v@.len(),
        forall|i: int| 0 <= i < v@.len() ==> expr_shifted(#[trigger] v@[i], r@[i], off),
    decreases e, 0nat,
{
    let ghost orig = v@;
    let mut rest = v;
    let mut out: Vec<Expr> = Vec::new();
    while rest.len() > 0
        invariant
            out@.len() + rest@.len() == orig.len(),
            rest@ == orig.skip(out@.len() as int),
            forall|i: int| 0 <= i < out@.len() ==> expr_shifted(orig[i], #[trigger] out@[i], off),
            forall|i: int| 0 <= i < orig.len() ==> expr_fits(#[trigger] orig[i], off),
            forall|i: int| 0 <= i < orig.len() ==> decreases_to!(e => #[trigger] orig[i]),
        decreases rest@.len(),
    {
        let x = rest.remove(0);
        proof {
            assert(x == orig[out@.len() as int]);
        }
        let y = shift_expr(x, off);
        out.push(y);
        assert(rest@ =~= orig.skip(out@.len() as int));
    }
    out
}

/// `e` with its column ranges moved `off` bytes later (see
/// `expr_shifted`).
pub fn shift_expr(e: Expr, off: u32) -> (r: Expr)
    requires
        expr_fits(e, off),
    ensures
        expr_shifted(e, r, off),
    decreases e, 1nat,
{
    match e {
        Expr::Column { qualifier, name, range } => Expr::Column { qualifier, name, range: shift_range(range, off) },
        Expr::BinaryOp { op, left, right } => {
            Expr::BinaryOp { op, left: Box::new(shift_expr(*left, off)), right: Box::new(shift_expr(*right, off)) }
        },
        Expr::Call { name, args } => {
            proof {
                assert forall|i: int| 0 <= i < args@.len() implies decreases_to!(e => #[trigger] args@[i]) by {
                    assert(decreases_to!(e => e->Call_args));
                    assert(decreases_to!(args => args@));
                    assert(decreases_to!(args@ => args@[i]));
                }
            }
            Expr::Call { name, args: shift_exprs(args, off, Ghost(e)) }
        },
        Expr::List(items) => {
            proof {
                assert forall|i: int| 0 <= i < items@.len() implies decreases_to!(e => #[trigger] items@[i]) by {
                    assert(decreases_to!(e => e->List_0));
                    assert(decreases_to!(items => items@));
                    assert(decreases_to!(items@ => items@[i]));
                }
            }
            Expr::List(shift_exprs(items, off, Ghost(e)))
        },
        other => other,
    }
}

/// `b` is the optional expression `a` shifted (see `expr_shifted`).
pub open spec fn opt_shifted(a: Option<Expr>, b: Option<Expr>, off: u32) -> bool {
    match a {
        Some(x) => b matches Some(y) && expr_shifted(x, y, off),
        None => b is None,
    }
}

/// Moving the ranges of an optional expression stays within `u32`.
pub open spec fn opt_fits(a: Option<Expr>, off: u32) -> bool {
    match a {
        Some(x) => expr_fits(x, off),
        None => true,
    }
}

fn shift_opt(a: Option<Expr>, off: u32) -> (b: Option<Expr>)
    requires
        opt_fits(a, off),
    ensures
        opt_shifted(a, b, off),
{
    match a {
        Some(x) => Some(shift_expr(x, off)),
        None => None,
    }
}

/// `q` is the projection `p` with its expression shifted.
pub open spec fn proj_shifted(p: Projection, q: Projection, off: u32) -> bool {
    match p {
        Projection::Expr { expr, alias } => q matches Projection::Expr { expr: e2, alias: a2 } && a2 == alias
            && expr_shifted(expr, e2, off),
        _ => q == p,
    }
}

/// Moving the ranges of a projection stays within `u32`.
pub open spec fn proj_fits(p: Projection, off: u32) -> bool {
    match p {
        Projection::Expr { expr, .. } => expr_fits(expr, off),
        _ => true,
    }
}

/// `b` is the table reference `a` with its range shifted.
pub open spec fn table_shifted(a: TableRef, b: TableRef, off: u32) -> bool {
    &&& b.schema == a.schema
    &&& b.name == a.name
    &&& b.alias == a.alias
    &&& range_shifted(a.range, b.range, off)
}

/// `b` is the list of table references `a`, each shifted.
pub open spec fn tables_shifted(a: Seq<TableRef>, b: Seq<TableRef>, off: u32) -> bool {
    &&& b.len() == a.len()
    &&& forall|i: int| 0 <= i < a.len() ==> table_shifted(#[trigger] a[i], b[i], off)
}

/// Moving the ranges of a list of table references stays within `u32`.
pub open spec fn tables_fit(a: Seq<TableRef>, off: u32) -> bool {
    forall|i: int| 0 <= i < a.len() ==> range_fits(#[trigger] a[i].range, off)
}

fn shift_table(t: TableRef, off: u32) -> (r: TableRef)
    requires
        range_fits(t.range, off),
    ensures
        table_shifted(t, r, off),
{
    let TableRef { schema, name, alias, range } = t;
    TableRef { schema, name, alias, range: shift_range(range, off) }
}

fn shift_tables(ts: Vec<TableRef>, off: u32) -> (r: Vec<TableRef>)
    requires
        tables_fit(ts@, off),
    ensures
        tables_shifted(ts@, r@, off),
{
    let ghost orig = ts@;
    let mut rest = ts;
    let mut out: Vec<TableRef> = Vec::new();
    while rest.len() > 0
        invariant
            out@.len() + rest@.len() == orig.len(),
            rest@ == orig.skip(out@.len() as int),
            forall|i: int| 0 <= i < out@.len() ==> table_shifted(orig[i], #[trigger] out@[i], off),
            tables_fit(orig, off),
        decreases rest@.len(),
    {
        let t = rest.remove(0);
        assert(t == orig[out@.len() as int]);
        out.push(shift_table(t, off));
        assert(rest@ =~= orig.skip(out@.len() as int));
    }
    out
}

/// `b` is the column definition `a` with its range shifted.
pub open spec fn column_shifted(a: ColumnDef, b: ColumnDef, off: u32) -> bool {
    &&& b.name == a.name
    &&& b.sql_type == a.sql_type
    &&& b.nullable == a.nullable
    &&& b.default == a.default
    &&& range_shifted(a.range, b.range, off)
}

fn shift_columns(cs: Vec<ColumnDef>, off: u32) -> (r: Vec<ColumnDef>)
    requires
        forall|i: int| 0 <= i < cs@.len() ==> range_fits(#[trigger] cs@[i].range, off),
    ensures
        r@.len() == cs@.len(),
        forall|i: int| 0 <= i < cs@.len() ==> column_shifted(#[trigger] cs@[i], r@[i], off),
{
    let ghost orig = cs@;
    let mut rest = cs;
    let mut out: Vec<ColumnDef> = Vec::new();
    while rest.len() > 0
        invariant
            out@.len() + rest@.len() == orig.len(),
            rest@ == orig.skip(out@.len() as int),
            forall|i: int| 0 <= i < out@.len() ==> column_shifted(orig[i], #[trigger] out@[i], off),
            forall|i: int| 0 <= i < orig.len() ==> range_fits(#[trigger] orig[i].range, off),
        decreases rest@.len(),
    {
        let c = rest.remove(0);
        assert(c == orig[out@.len() as int]);
        let ColumnDef { name, sql_type, nullable, default, range } = c;
        out.push(ColumnDef { name, sql_type, nullable, default, range: shift_range(range, off) });
        assert(rest@ =~= orig.skip(out@.len() as int));
    }
    out
}

/// `b` is the join `a` with its table and ON clause shifted.
pub open spec fn join_shifted(a: JoinClause, b: JoinClause, off: u32) -> bool {
    b.kind == a.kind && table_shifted(a.table, b.table, off) && opt_shifted(a.on, b.on, off)
}

/// Moving the ranges of a join stays within `u32`.
pub open spec fn join_fits(j: JoinClause, off: u32) -> bool {
    range_fits(j.table.range, off) && opt_fits(j.on, off)
}

fn shift_projections(ps: Vec<Projection>, off: u32) -> (r: Vec<Projection>)
    requires
        forall|i: int| 0 <= i < ps@.len() ==> proj_fits(#[trigger] ps@[i], off),
    ensures
        r@.len() == ps@.len(),
        forall|i: int| 0 <= i < ps@.len() ==> proj_shifted(#[trigger] ps@[i], r@[i], off),
{
    let ghost orig = ps@;
    let mut rest = ps;
    let mut out: Vec<Projection> = Vec::new();
    while rest.len() > 0
        invariant
            out@.len() + rest@.len() == orig.len(),
            rest@ == orig.skip(out@.len() as int),
            forall|i: int| 0 <= i < out@.len() ==> proj_shifted(orig[i], #[trigger] out@[i], off),
            forall|i: int| 0 <= i < orig.len() ==> proj_fits(#[trigger] orig[i], off),
        decreases rest@.len(),
    {
        let p = rest.remove(0);
        assert(p == orig[out@.len() as int]);
        let q = match p {
            Projection::Expr { expr, alias } => Projection::Expr { expr: shift_expr(expr, off), alias },
            other => other,
        };
        out.push(q);
        assert(rest@ =~= orig.skip(out@.len() as int));
    }
    out
}

fn shift_joins(js: Vec<JoinClause>, off: u32) -> (r: Vec<JoinClause>)
    requires
        forall|i: int| 0 <= i < js@.len() ==> join_fits(#[trigger] js@[i], off),
    ensures
        r@.len() == js@.len(),
        forall|i: int| 0 <= i < js@.len() ==> join_shifted(#[trigger] js@[i], r@[i], off),
{
    let ghost orig = js@;
    let mut rest = js;
    let mut out: Vec<JoinClause> = Vec::new();
    while rest.len() > 0
        invariant
            out@.len() + rest@.len() == orig.len(),
            rest@ == orig.skip(out@.len() as int),
            forall|i: int| 0 <= i < out@.len() ==> join_shifted(orig[i], #[trigger] out@[i], off),
            forall|i: int| 0 <= i < orig.len() ==> join_fits(#[trigger] orig[i], off),
        decreases rest@.len(),
    {
        let j = rest.remove(0);
        assert(j == orig[out@.len() as int]);
        out.push(JoinClause { kind: j.kind, table: shift_table(j.table, off), on: shift_opt(j.on, off) });
        assert(rest@ =~= orig.skip(out@.len() as int));
    }
    out
}

fn shift_assignments(a: Vec<(String, Expr)>, off: u32) -> (r: Vec<(String, Expr)>)
    requires
        forall|i: int| 0 <= i < a@.len() ==> expr_fits(#[trigger] a@[i].1, off),
    ensures
        r@.len() == a@.len(),
        forall|i: int|
            0 <= i < a@.len() ==> (#[trigger] r@[i]).0 == a@[i].0 && expr_shifted(a@[i].1, r@[i].1, off),
{
    let ghost orig = a@;
    let mut rest = a;
    let mut out: Vec<(String, Expr)> = Vec::new();
    while rest.len() > 0
        invariant
            out@.len() + rest@.len() == orig.len(),
            rest@ == orig.skip(out@.len() as int),
            forall|i: int|
                0 <= i < out@.len() ==> (#[trigger] out@[i]).0 == orig[i].0 && expr_shifted(
                    orig[i].1,
                    out@[i].1,
                    off,
                ),
            forall|i: int| 0 <= i < orig.len() ==> expr_fits(#[trigger] orig[i].1, off),
        decreases rest@.len(),
    {
        let (t, e) = rest.remove(0);
        assert((t, e) == orig[out@.len() as int]);
        out.push((t, shift_expr(e, off)));
        assert(rest@ =~= orig.skip(out@.len() as int));
    }
    out
}

/// `b` is the statement `a` with every byte range in it moved by `off`
/// (see `range_shifted`): the column references of its expressions and
/// the ranges of its table references and column definitions; everything
/// else unchanged.
pub open spec fn kind_shifted(a: StatementKind, b: StatementKind, off: u32) -> bool {
    match a {
        StatementKind::Select(s) => {
            &&& b matches StatementKind::Select(t)
            &&& t.projections@.len() == s.projections@.len()
            &&& forall|i: int|
                0 <= i < s.projections@.len() ==> proj_shifted(
                    #[trigger] s.projections@[i],
                    t.projections@[i],
                    off,
                )
            &&& tables_shifted(s.from@, t.from@, off)
            &&& t.joins@.len() == s.joins@.len()
            &&& forall|i: int| 0 <= i < s.joins@.len() ==> join_shifted(#[trigger] s.joins@[i], t.joins@[i], off)
            &&& opt_shifted(s.where_clause, t.where_clause, off)
            &&& t.cte_names == s.cte_names
        },
        StatementKind::Insert(i) => {
            &&& b matches StatementKind::Insert(j)
            &&& table_shifted(i.table, j.table, off)
            &&& j.columns == i.columns
        },
        StatementKind::Update(u) => {
            &&& b matches StatementKind::Update(v)
            &&& table_shifted(u.table, v.table, off)
            &&& v.assignments@.len() == u.assignments@.len()
            &&& forall|i: int|
                0 <= i < u.assignments@.len() ==> (#[trigger] v.assignments@[i]).0 == u.assignments@[i].0
                    && expr_shifted(u.assignments@[i].1, v.assignments@[i].1, off)
            &&& opt_shifted(u.where_clause, v.where_clause, off)
            &&& tables_shifted(u.from_tables@, v.from_tables@, off)
        },
        StatementKind::Delete(d) => {
            &&& b matches StatementKind::Delete(e)
            &&& table_shifted(d.table, e.table, off)
            &&& opt_shifted(d.where_clause, e.where_clause, off)
            &&& tables_shifted(d.using_tables@, e.using_tables@, off)
        },
        StatementKind::CreateTable(c) => {
            &&& b matches StatementKind::CreateTable(e)
            &&& table_shifted(c.table, e.table, off)
            &&& e.if_not_exists == c.if_not_exists
            &&& e.columns@.len() == c.columns@.len()
            &&& forall|i: int|
                0 <= i < c.columns@.len() ==> column_shifted(#[trigger] c.columns@[i], e.columns@[i], off)
        },
        StatementKind::AlterTable(t) => b matches StatementKind::AlterTable(u) && table_shifted(
            t.table,
            u.table,
            off,
        ),
        StatementKind::DropTable(d) => {
            &&& b matches StatementKind::DropTable(e)
            &&& tables_shifted(d.tables@, e.tables@, off)
            &&& e.if_exists == d.if_exists
        },
        _ => b == a,
    }
}

/// Shifting every range of a statement by `off` stays within `u32`.
pub open spec fn kind_fits(k: StatementKind, off: u32) -> bool {
    match k {
        StatementKind::Select(s) => {
            &&& forall|i: int| 0 <= i < s.projections@.len() ==> proj_fits(#[trigger] s.projections@[i], off)
            &&& tables_fit(s.from@, off)
            &&& forall|i: int| 0 <= i < s.joins@.len() ==> join_fits(#[trigger] s.joins@[i], off)
            &&& opt_fits(s.where_clause, off)
        },
        StatementKind::Insert(i) => range_fits(i.table.range, off),
        StatementKind::Update(u) => {
            &&& range_fits(u.table.range, off)
            &&& forall|i: int| 0 <= i < u.assignments@.len() ==> expr_fits(#[trigger] u.assignments@[i].1, off)
            &&& opt_fits(u.where_clause, off)
            &&& tables_fit(u.from_tables@, off)
        },
        StatementKind::Delete(d) => {
            &&& range_fits(d.table.range, off)
            &&& opt_fits(d.where_clause, off)
            &&& tables_fit(d.using_tables@, off)
        },
        StatementKind::CreateTable(c) => {
            &&& range_fits(c.table.range, off)
            &&& forall|i: int| 0 <= i < c.columns@.len() ==> range_fits(#[trigger] c.columns@[i].range, off)
        },
        StatementKind::AlterTable(t) => range_fits(t.table.range, off),
        StatementKind::DropTable(d) => tables_fit(d.tables@, off),
        _ => true,
    }
}

/// Adds `offset` to every byte range inside the statement, so that
/// ranges relative to one chunk of a document become ranges in the whole
/// document (see `kind_shifted`).
pub fn offset_ranges_in_kind(kind: &mut StatementKind, offset: u32)
    requires
        kind_fits(*old(kind), offset),
    ensures
        kind_shifted(*old(kind), *final(kind), offset),
{
    let mut k = StatementKind::Unknown { text: String::new() };
    std::mem::swap(&mut k, kind);
    let shifted = match k {
        StatementKind::Select(s) => {
            let SelectStmt { projections, from, joins, where_clause, cte_names } = s;
            StatementKind::Select(
                SelectStmt {
                    projections: shift_projections(projections, offset),
                    from: shift_tables(from, offset),
                    joins: shift_joins(joins, offset),
                    where_clause: shift_opt(where_clause, offset),
                    cte_names,
                },
            )
        },
        StatementKind::Insert(i) => {
            let InsertStmt { table, columns } = i;
            StatementKind::Insert(InsertStmt { table: shift_table(table, offset), columns })
        },
        StatementKind::Update(u) => {
            let UpdateStmt { table, assignments, where_clause, from_tables } = u;
            StatementKind::Update(
                UpdateStmt {
                    table: shift_table(table, offset),
                    assignments: shift_assignments(assignments, offset),
                    where_clause: shift_opt(where_clause, offset),
                    from_tables: shift_tables(from_tables, offset),
                },
            )
        },
        StatementKind::Delete(d) => {
            let DeleteStmt { table, where_clause, using_tables } = d;
            StatementKind::Delete(
                DeleteStmt {
                    table: shift_table(table, offset),
                    where_clause: shift_opt(where_clause, offset),
                    using_tables: shift_tables(using_tables, offset),
                },
            )
        },
        StatementKind::CreateTable(c) => {
            let CreateTableStmt { table, if_not_exists, columns } = c;
            StatementKind::CreateTable(
                CreateTableStmt {
                    table: shift_table(table, offset),
                    if_not_exists,
                    columns: shift_columns(columns, offset),
                },
            )
        },
        StatementKind::AlterTable(a) => StatementKind::AlterTable(
            AlterTableStmt { table: shift_table(a.table, offset) },
        ),
        StatementKind::DropTable(d) => {
            let DropTableStmt { tables, if_exists } = d;
            StatementKind::DropTable(DropTableStmt { tables: shift_tables(tables, offset), if_exists })
        },
        other => other,
    };
    *kind = shifted;
}

proof fn lemma_range_compose(a: TextRange, b: TextRange, c: TextRange, o1: u32, o2: u32)
    requires
        range_shifted(a, b, o1),
        range_shifted(b, c, o2),
        o1 + o2 <= u32::MAX,
    ensures
        range_shifted(a, c, (o1 + o2) as u32),
{
}

proof fn lemma_expr_compose(a: Expr, b: Expr, c: Expr, o1: u32, o2: u32)
    requires
        expr_shifted(a, b, o1),
        expr_shifted(b, c, o2),
        o1 + o2 <= u32::MAX,
    ensures
        expr_shifted(a, c, (o1 + o2) as u32),
    decreases a,
{
    match a {
        Expr::Column { range, .. } => {
            lemma_range_compose(range, b->Column_range, c->Column_range, o1, o2);
        },
        Expr::BinaryOp { left, right, .. } => {
            lemma_expr_compose(*left, *b->BinaryOp_left, *c->BinaryOp_left, o1, o2);
            lemma_expr_compose(*right, *b->BinaryOp_right, *c->BinaryOp_right, o1, o2);
        },
        Expr::Call { args, .. } => {
            assert forall|i: int| 0 <= i < args@.len() implies expr_shifted(
                #[trigger] args@[i],
                c->Call_args@[i],
                (o1 + o2) as u32,
            ) by {
                assert(decreases_to!(a => a->Call_args));
                assert(decreases_to!(args => args@));
                assert(decreases_to!(args@ => args@[i]));
                lemma_expr_compose(args@[i], b->Call_args@[i], c->Call_args@[i], o1, o2);
            }
        },
        Expr::List(items) => {
            assert forall|i: int| 0 <= i < items@.len() implies expr_shifted(
                #[trigger] items@[i],
                c->List_0@[i],
                (o1 + o2) as u32,
            ) by {
                assert(decreases_to!(a => a->List_0));
                assert(decreases_to!(items => items@));
                assert(decreases_to!(items@ => items@[i]));
                lemma_expr_compose(items@[i], b->List_0@[i], c->List_0@[i], o1, o2);
            }
        },
        _ => {},
    }
}

proof fn lemma_opt_compose(a: Option<Expr>, b: Option<Expr>, c: Option<Expr>, o1: u32, o2: u32)
    requires
        opt_shifted(a, b, o1),
        opt_shifted(b, c, o2),
        o1 + o2 <= u32::MAX,
    ensures
        opt_shifted(a, c, (o1 + o2) as u32),
{
    if let Some(x) = a {
        lemma_expr_compose(x, b->0, c->0, o1, o2);
    }
}

proof fn lemma_table_compose(a: TableRef, b: TableRef, c: TableRef, o1: u32, o2: u32)
    requires
        table_shifted(a, b, o1),
        table_shifted(b, c, o2),
        o1 + o2 <= u32::MAX,
    ensures
        table_shifted(a, c, (o1 + o2) as u32),
{
    lemma_range_compose(a.range, b.range, c.range, o1, o2);
}

proof fn lemma_tables_compose(a: Seq<TableRef>, b: Seq<TableRef>, c: Seq<TableRef>, o1: u32, o2: u32)
    requires
        tables_shifted(a, b, o1),
        tables_shifted(b, c, o2),
        o1 + o2 <= u32::MAX,
    ensures
        tables_shifted(a, c, (o1 + o2) as u32),
{
    assert forall|i: int| 0 <= i < a.len() implies table_shifted(#[trigger] a[i], c[i], (o1 + o2) as u32) by {
        lemma_table_compose(a[i], b[i], c[i], o1, o2);
    }
}

/// Shifting a statement's ranges by `o1` and then by `o2` shifts them by
/// `o1 + o2`: placing a chunk inside a chunk inside a document is placing
/// it in the document at once.
pub proof fn law_shifting_twice_is_shifting_by_the_sum(
    a: StatementKind,
    b: StatementKind,
    c: StatementKind,
    o1: u32,
    o2: u32,
)
    requires
        kind_shifted(a, b, o1),
        kind_shifted(b, c, o2),
        o1 + o2 <= u32::MAX,
    ensures
        kind_shifted(a, c, (o1 + o2) as u32),
{
    let o = (o1 + o2) as u32;
    match a {
        StatementKind::Select(s) => {
            let t = b->Select_0;
            let u = c->Select_0;
            assert forall|i: int| 0 <= i < s.projections@.len() implies proj_shifted(
                #[trigger] s.projections@[i],
                u.projections@[i],
                o,
            ) by {
                assert(proj_shifted(s.projections@[i], t.projections@[i], o1));
                assert(proj_shifted(t.projections@[i], u.projections@[i], o2));
                if let Projection::Expr { expr, .. } = s.projections@[i] {
                    lemma_expr_compose(
                        expr,
                        t.projections@[i]->Expr_expr,
                        u.projections@[i]->Expr_expr,
                        o1,
                        o2,
                    );
                }
            }
            lemma_tables_compose(s.from@, t.from@, u.from@, o1, o2);
            assert forall|i: int| 0 <= i < s.joins@.len() implies join_shifted(
                #[trigger] s.joins@[i],
                u.joins@[i],
                o,
            ) by {
                assert(join_shifted(s.joins@[i], t.joins@[i], o1));
                assert(join_shifted(t.joins@[i], u.joins@[i], o2));
                lemma_table_compose(s.joins@[i].table, t.joins@[i].table, u.joins@[i].table, o1, o2);
                lemma_opt_compose(s.joins@[i].on, t.joins@[i].on, u.joins@[i].on, o1, o2);
            }
            lemma_opt_compose(s.where_clause, t.where_clause, u.where_clause, o1, o2);
        },
        StatementKind::Insert(i) => {
            lemma_table_compose(i.table, b->Insert_0.table, c->Insert_0.table, o1, o2);
        },
        StatementKind::Update(x) => {
            let y = b->Update_0;
            let z = c->Update_0;
            lemma_table_compose(x.table, y.table, z.table, o1, o2);
            assert forall|i: int| 0 <= i < x.assignments@.len() implies (#[trigger] z.assignments@[i]).0
                == x.assignments@[i].0 && expr_shifted(x.assignments@[i].1, z.assignments@[i].1, o) by {
                assert(y.assignments@[i].0 == x.assignments@[i].0);
                assert(z.assignments@[i].0 == y.assignments@[i].0);
                lemma_expr_compose(x.assignments@[i].1, y.assignments@[i].1, z.assignments@[i].1, o1, o2);
            }
            lemma_opt_compose(x.where_clause, y.where_clause, z.where_clause, o1, o2);
            lemma_tables_compose(x.from_tables@, y.from_tables@, z.from_tables@, o1, o2);
        },
        StatementKind::Delete(x) => {
            let y = b->Delete_0;
            let z = c->Delete_0;
            lemma_table_compose(x.table, y.table, z.table, o1, o2);
            lemma_opt_compose(x.where_clause, y.where_clause, z.where_clause, o1, o2);
            lemma_tables_compose(x.using_tables@, y.using_tables@, z.using_tables@, o1, o2);
        },
        StatementKind::CreateTable(x) => {
            let y = b->CreateTable_0;
            let z = c->CreateTable_0;
            lemma_table_compose(x.table, y.table, z.table, o1, o2);
            assert forall|i: int| 0 <= i < x.columns@.len() implies column_shifted(
                #[trigger] x.columns@[i],
                z.columns@[i],
                o,
            ) by {
                assert(column_shifted(x.columns@[i], y.columns@[i], o1));
                assert(column_shifted(y.columns@[i], z.columns@[i], o2));
                lemma_range_compose(x.columns@[i].range, y.columns@[i].range, z.columns@[i].range, o1, o2);
            }
        },
        StatementKind::AlterTable(x) => {
            lemma_table_compose(x.table, b->AlterTable_0.table, c->AlterTable_0.table, o1, o2);
        },
        StatementKind::DropTable(x) => {
            lemma_tables_compose(x.tables@, b->DropTable_0.tables@, c->DropTable_0.tables@, o1, o2);
        },
        _ => {},
    }
}

proof fn lemma_range_det(a: TextRange, b: TextRange, c: TextRange, o: u32)
    requires
        range_shifted(a, b, o),
        range_shifted(a, c, o),
    ensures
        range_shifted(b, c, 0),
{
}

proof fn lemma_expr_det(a: Expr, b: Expr, c: Expr, o: u32)
    requires
        expr_shifted(a, b, o),
        expr_shifted(a, c, o),
    ensures
        expr_shifted(b, c, 0),
    decreases a,
{
    match a {
        Expr::Column { range, .. } => {
            lemma_range_det(range, b->Column_range, c->Column_range, o);
        },
        Expr::BinaryOp { left, right, .. } => {
            lemma_expr_det(*left, *b->BinaryOp_left, *c->BinaryOp_left, o);
            lemma_expr_det(*right, *b->BinaryOp_right, *c->BinaryOp_right, o);
        },
        Expr::Call { args, .. } => {
            let ba = b->Call_args;
            assert forall|i: int| 0 <= i < ba@.len() implies expr_shifted(
                #[trigger] ba@[i],
                c->Call_args@[i],
                0,
            ) by {
                assert(decreases_to!(a => a->Call_args));
                assert(decreases_to!(args => args@));
                assert(decreases_to!(args@ => args@[i]));
                lemma_expr_det(args@[i], ba@[i], c->Call_args@[i], o);
            }
        },
        Expr::List(items) => {
            let bi = b->List_0;
            assert forall|i: int| 0 <= i < bi@.len() implies expr_shifted(#[trigger] bi@[i], c->List_0@[i], 0) by {
                assert(decreases_to!(a => a->List_0));
                assert(decreases_to!(items => items@));
                assert(decreases_to!(items@ => items@[i]));
                lemma_expr_det(items@[i], bi@[i], c->List_0@[i], o);
            }
        },
        _ => {},
    }
}

proof fn lemma_opt_det(a: Option<Expr>, b: Option<Expr>, c: Option<Expr>, o: u32)
    requires
        opt_shifted(a, b, o),
        opt_shifted(a, c, o),
    ensures
        opt_shifted(b, c, 0),
{
    if let Some(x) = a {
        lemma_expr_det(x, b->0, c->0, o);
    }
}

proof fn lemma_tables_det(a: Seq<TableRef>, b: Seq<TableRef>, c: Seq<TableRef>, o: u32)
    requires
        tables_shifted(a, b, o),
        tables_shifted(a, c, o),
    ensures
        tables_shifted(b, c, 0),
{
    assert forall|i: int| 0 <= i < b.len() implies table_shifted(#[trigger] b[i], c[i], 0) by {
        assert(table_shifted(a[i], b[i], o));
        lemma_range_det(a[i].range, b[i].range, c[i].range, o);
    }
}

proof fn lemma_expr_refl(a: Expr)
    ensures
        expr_shifted(a, a, 0),
    decreases a,
{
    match a {
        Expr::BinaryOp { left, right, .. } => {
            lemma_expr_refl(*left);
            lemma_expr_refl(*right);
        },
        Expr::Call { args, .. } => {
            assert forall|i: int| 0 <= i < args@.len() implies expr_shifted(#[trigger] args@[i], args@[i], 0) by {
                assert(decreases_to!(a => a->Call_args));
                assert(decreases_to!(args => args@));
                assert(decreases_to!(args@ => args@[i]));
                lemma_expr_refl(args@[i]);
            }
        },
        Expr::List(items) => {
            assert forall|i: int| 0 <= i < items@.len() implies expr_shifted(#[trigger] items@[i], items@[i], 0) by {
                assert(decreases_to!(a => a->List_0));
                assert(decreases_to!(items => items@));
                assert(decreases_to!(items@ => items@[i]));
                lemma_expr_refl(items@[i]);
            }
        },
        _ => {},
    }
}

proof fn lemma_opt_refl(a: Option<Expr>)
    ensures
        opt_shifted(a, a, 0),
{
    if let Some(x) = a {
        lemma_expr_refl(x);
    }
}

proof fn lemma_shift_zero_refl(k: StatementKind)
    ensures
        kind_shifted(k, k, 0),
{
    match k {
        StatementKind::Select(s) => {
            assert forall|i: int| 0 <= i < s.projections@.len() implies proj_shifted(
                #[trigger] s.projections@[i],
                s.projections@[i],
                0,
            ) by {
                if let Projection::Expr { expr, .. } = s.projections@[i] {
                    lemma_expr_refl(expr);
                }
            }
            assert forall|i: int| 0 <= i < s.joins@.len() implies join_shifted(
                #[trigger] s.joins@[i],
                s.joins@[i],
                0,
            ) by {
                lemma_opt_refl(s.joins@[i].on);
            }
            lemma_opt_refl(s.where_clause);
        },
        StatementKind::Update(x) => {
            assert forall|i: int| 0 <= i < x.assignments@.len() implies (#[trigger] x.assignments@[i]).0
                == x.assignments@[i].0 && expr_shifted(x.assignments@[i].1, x.assignments@[i].1, 0) by {
                lemma_expr_refl(x.assignments@[i].1);
            }
            lemma_opt_refl(x.where_clause);
        },
        StatementKind::Delete(x) => {
            lemma_opt_refl(x.where_clause);
        },
        _ => {},
    }
}

/// `b` and `c` are the same statement, field by field: the same variant,
/// texts and flags, lists of the same length with the same elements, and
/// the same byte ranges (`kind_shifted` by nothing).
pub open spec fn kind_agrees(b: StatementKind, c: StatementKind) -> bool {
    kind_shifted(b, c, 0)
}

/// Shifting is a function: two shifts of one statement by the same offset
/// agree field by field.
pub proof fn law_shift_is_deterministic(a: StatementKind, b: StatementKind, c: StatementKind, o: u32)
    requires
        kind_shifted(a, b, o),
        kind_shifted(a, c, o),
    ensures
        kind_agrees(b, c),
{
    match a {
        StatementKind::Select(s) => {
            let t = b->Select_0;
            let u = c->Select_0;
            assert forall|i: int| 0 <= i < t.projections@.len() implies proj_shifted(
                #[trigger] t.projections@[i],
                u.projections@[i],
                0,
            ) by {
                assert(proj_shifted(s.projections@[i], t.projections@[i], o));
                assert(proj_shifted(s.projections@[i], u.projections@[i], o));
                if let Projection::Expr { expr, .. } = s.projections@[i] {
                    lemma_expr_det(expr, t.projections@[i]->Expr_expr, u.projections@[i]->Expr_expr, o);
                }
            }
            lemma_tables_det(s.from@, t.from@, u.from@, o);
            assert forall|i: int| 0 <= i < t.joins@.len() implies join_shifted(
                #[trigger] t.joins@[i],
                u.joins@[i],
                0,
            ) by {
                assert(join_shifted(s.joins@[i], t.joins@[i], o));
                assert(join_shifted(s.joins@[i], u.joins@[i], o));
                lemma_range_det(s.joins@[i].table.range, t.joins@[i].table.range, u.joins@[i].table.range, o);
                lemma_opt_det(s.joins@[i].on, t.joins@[i].on, u.joins@[i].on, o);
            }
            lemma_opt_det(s.where_clause, t.where_clause, u.where_clause, o);
        },
        StatementKind::Insert(i) => {
            lemma_range_det(i.table.range, b->Insert_0.table.range, c->Insert_0.table.range, o);
        },
        StatementKind::Update(x) => {
            let y = b->Update_0;
            let z = c->Update_0;
            lemma_range_det(x.table.range, y.table.range, z.table.range, o);
            assert forall|i: int| 0 <= i < y.assignments@.len() implies (#[trigger] z.assignments@[i]).0
                == y.assignments@[i].0 && expr_shifted(y.assignments@[i].1, z.assignments@[i].1, 0) by {
                assert(y.assignments@[i].0 == x.assignments@[i].0);
                assert(z.assignments@[i].0 == x.assignments@[i].0);
                lemma_expr_det(x.assignments@[i].1, y.assignments@[i].1, z.assignments@[i].1, o);
            }
            lemma_opt_det(x.where_clause, y.where_clause, z.where_clause, o);
            lemma_tables_det(x.from_tables@, y.from_tables@, z.from_tables@, o);
        },
        StatementKind::Delete(x) => {
            let y = b->Delete_0;
            let z = c->Delete_0;
            lemma_range_det(x.table.range, y.table.range, z.table.range, o);
            lemma_opt_det(x.where_clause, y.where_clause, z.where_clause, o);
            lemma_tables_det(x.using_tables@, y.using_tables@, z.using_tables@, o);
        },
        StatementKind::CreateTable(x) => {
            let y = b->CreateTable_0;
            let z = c->CreateTable_0;
            lemma_range_det(x.table.range, y.table.range, z.table.range, o);
            assert forall|i: int| 0 <= i < y.columns@.len() implies column_shifted(
                #[trigger] y.columns@[i],
                z.columns@[i],
                0,
            ) by {
                assert(column_shifted(x.columns@[i], y.columns@[i], o));
                assert(column_shifted(x.columns@[i], z.columns@[i], o));
                lemma_range_det(x.columns@[i].range, y.columns@[i].range, z.columns@[i].range, o);
            }
        },
        StatementKind::AlterTable(x) => {
            lemma_range_det(x.table.range, b->AlterTable_0.table.range, c->AlterTable_0.table.range, o);
        },
        StatementKind::DropTable(x) => {
            lemma_tables_det(x.tables@, b->DropTable_0.tables@, c->DropTable_0.tables@, o);
        },
        _ => {},
    }
}

/// Shifting by `a` and then by `b` agrees, field by field, with shifting
/// once by `a + b`.
pub proof fn law_two_shifts_agree_with_one(
    k: StatementKind,
    x: StatementKind,
    y: StatementKind,
    z: StatementKind,
    a: u32,
    b: u32,
)
    requires
        kind_shifted(k, x, a),
        kind_shifted(x, y, b),
        kind_shifted(k, z, (a + b) as u32),
        a + b <= u32::MAX,
    ensures
        kind_agrees(y, z),
{
    law_shifting_twice_is_shifting_by_the_sum(k, x, y, a, b);
    law_shift_is_deterministic(k, y, z, (a + b) as u32);
}

/// Shifting by nothing changes nothing: the result agrees with the
/// statement field by field, and agreement goes both ways.
pub proof fn law_shift_by_zero(k: StatementKind, z: StatementKind)
    requires
        kind_shifted(k, z, 0),
    ensures
        kind_agrees(k, z),
        kind_agrees(z, k),
{
    lemma_shift_zero_refl(k);
    law_shift_is_deterministic(k, z, k, 0);
}

/// Every conversion of the statement `node` (whose text is `text`) can
/// have its ranges shifted by `off` within `u32`.
pub open spec fn stmt_shift_fits(node: PgNode, text: Seq<char>, off: u32) -> bool {
    forall|k: StatementKind| #[trigger] stmt_matches(k, node, text) ==> kind_fits(k, off)
}

/// One statement of a parsed document as plain values: its byte range,
/// the parse-tree node it converts (none for an `Unknown` statement) and
/// the text of its chunk.
pub struct Slot {
    pub start: u32,
    pub end: u32,
    pub node: Option<PgNode>,
    pub text: Seq<char>,
}

/// The nodes of a list that are there (not `Missing`), in order.
pub open spec fn present_nodes(nodes: Seq<PgNode>) -> Seq<PgNode>
    decreases nodes.len(),
{
    if nodes.len() == 0 {
        Seq::<PgNode>::empty()
    } else {
        present_nodes(nodes.drop_last()) + if nodes.last() is Missing {
            Seq::<PgNode>::empty()
        } else {
            seq![nodes.last()]
        }
    }
}

/// The statements of one chunk: one per statement node the parser gave
/// back; an `Unknown` statement with the chunk's text when it gave none
/// (whitespace, comments) or failed.
pub open spec fn chunk_slots(text: Seq<char>, start: u32, end: u32, r: Result<Vec<PgNode>, String>) -> Seq<Slot> {
    match r {
        Ok(nodes) => {
            let ps = present_nodes(nodes@);
            if ps.len() == 0 {
                seq![Slot { start, end, node: None, text }]
            } else {
                ps.map_values(|n: PgNode| Slot { start, end, node: Some(n), text })
            }
        },
        Err(_) => seq![Slot { start, end, node: None, text }],
    }
}

/// The error of one chunk: its range and the parser's message after
/// `pg_query: `, when the parser failed.
pub open spec fn chunk_errors(start: u32, end: u32, r: Result<Vec<PgNode>, String>) -> Seq<(u32, u32, Seq<char>)> {
    match r {
        Ok(_) => Seq::<(u32, u32, Seq<char>)>::empty(),
        Err(m) => seq![(start, end, "pg_query: "@ + m@)],
    }
}

/// The statements of the first chunks of a document, chunk by chunk.
pub open spec fn doc_slots(chunks: Seq<(String, TextRange)>, results: Seq<Result<Vec<PgNode>, String>>) -> Seq<Slot>
    decreases chunks.len(),
{
    if chunks.len() == 0 || results.len() != chunks.len() {
        Seq::<Slot>::empty()
    } else {
        doc_slots(chunks.drop_last(), results.drop_last()) + chunk_slots(
            chunks.last().0@,
            chunks.last().1.start_spec(),
            chunks.last().1.end_spec(),
            results.last(),
        )
    }
}

/// The errors of the first chunks of a document, chunk by chunk.
pub open spec fn doc_errors(chunks: Seq<(String, TextRange)>, results: Seq<Result<Vec<PgNode>, String>>) -> Seq<
    (u32, u32, Seq<char>),
>
    decreases chunks.len(),
{
    if chunks.len() == 0 || results.len() != chunks.len() {
        Seq::<(u32, u32, Seq<char>)>::empty()
    } else {
        doc_errors(chunks.drop_last(), results.drop_last()) + chunk_errors(
            chunks.last().1.start_spec(),
            chunks.last().1.end_spec(),
            results.last(),
        )
    }
}

/// `st` is the statement `s`: a node's statement is its conversion with
/// every range moved to the chunk's place in the document.
pub open spec fn is_slot(st: Statement, s: Slot) -> bool {
    &&& st.range.start_spec() == s.start
    &&& st.range.end_spec() == s.end
    &&& match s.node {
        Some(n) => exists|k0: StatementKind|
            #[trigger] stmt_matches(k0, n, s.text) && kind_shifted(k0, st.kind, s.start),
        None => st.kind matches StatementKind::Unknown { text: t } && t@ == s.text,
    }
}

/// `e` is the error `x`.
pub open spec fn is_error(e: ParseError, x: (u32, u32, Seq<char>)) -> bool {
    e.range.start_spec() == x.0 && e.range.end_spec() == x.1 && e.message@ == x.2
}

/// The parse trees of every chunk convert, and shift to the chunk's
/// place in the document, within `u32` byte offsets.
pub open spec fn doc_fits(chunks: Seq<(String, TextRange)>, results: Seq<Result<Vec<PgNode>, String>>) -> bool {
    forall|i: int|
        0 <= i < results.len() ==> chunk_fits(#[trigger] results[i], chunks[i].0@, chunks[i].1.start_spec())
}

/// The statement nodes of one chunk convert, and shift `off` bytes,
/// within `u32` byte offsets.
pub open spec fn chunk_fits(r: Result<Vec<PgNode>, String>, text: Seq<char>, off: u32) -> bool {
    match r {
        Ok(nodes) => forall|j: int|
            0 <= j < nodes@.len() ==> stmt_fits(#[trigger] nodes@[j]) && stmt_shift_fits(nodes@[j], text, off),
        Err(_) => true,
    }
}

/// `pf` holds the statements `slots` and the errors `errs`, in order.
pub open spec fn file_matches(pf: ParsedFile, slots: Seq<Slot>, errs: Seq<(u32, u32, Seq<char>)>) -> bool {
    &&& pf.statements@.len() == slots.len()
    &&& forall|i: int| 0 <= i < slots.len() ==> is_slot(#[trigger] pf.statements@[i], slots[i])
    &&& pf.errors@.len() == errs.len()
    &&& forall|i: int| 0 <= i < errs.len() ==> is_error(#[trigger] pf.errors@[i], errs[i])
}

/// The parsed document from the Postgres parser's answer for each of its
/// chunks (a chunk's text and range, and the statement nodes parsed from
/// it or the parser's error): every statement converted into the
/// internal AST with every byte range moved to the chunk's place in the
/// document, an `Unknown` statement for a chunk without statements, and
/// an error plus an `Unknown` statement for a chunk that failed (see
/// `doc_slots` and `doc_errors`).
pub fn parse(
    chunks: &Vec<(String, TextRange)>,
    results: &Vec<Result<Vec<PgNode>, String>>,
    _dialect: Dialect,
) -> (pf: ParsedFile)
    requires
        chunks@.len() == results@.len(),
        doc_fits(chunks@, results@),
    ensures
        file_matches(pf, doc_slots(chunks@, results@), doc_errors(chunks@, results@)),
{
    let mut statements: Vec<Statement> = Vec::new();
    let mut errors: Vec<ParseError> = Vec::new();
    let mut i: usize = 0;
    while i < chunks.len()
        invariant
            0 <= i <= chunks@.len() == results@.len(),
            doc_fits(chunks@, results@),
            file_matches(
                ParsedFile { statements, errors },
                doc_slots(chunks@.take(i as int), results@.take(i as int)),
                doc_errors(chunks@.take(i as int), results@.take(i as int)),
            ),
        decreases chunks@.len() - i,
    {
        let ghost cs = chunks@.take(i + 1);
        let ghost rs = results@.take(i + 1);
        assert(cs.drop_last() =~= chunks@.take(i as int));
        assert(rs.drop_last() =~= results@.take(i as int));
        let ghost slots0 = doc_slots(chunks@.take(i as int), results@.take(i as int));
        let ghost errs0 = doc_errors(chunks@.take(i as int), results@.take(i as int));
        let chunk = &chunks[i].0;
        let range = chunks[i].1;
        let ghost start = range.start_spec();
        let ghost end = range.end_spec();
        let ghost cslots = chunk_slots(chunk@, start, end, results@[i as int]);
        let ghost st0 = statements@;
        let ghost er0 = errors@;
        let ghost cerrs = chunk_errors(start, end, results@[i as int]);
        match &results[i] {
            Ok(nodes) => {
                let mut emitted = false;
                let mut j: usize = 0;
                while j < nodes.len()
                    invariant
                        0 <= j <= nodes@.len(),
                        results@[i as int] == Ok::<Vec<PgNode>, String>(*nodes),
                        0 <= i < chunks@.len() == results@.len(),
                        doc_fits(chunks@, results@),
                        range == chunks@[i as int].1,
                        start == range.start_spec(),
                        end == range.end_spec(),
                        chunk == &chunks@[i as int].0,
                        emitted == (present_nodes(nodes@.take(j as int)).len() > 0),
                        statements@.len() == st0.len() + present_nodes(nodes@.take(j as int)).len(),
                        statements@.take(st0.len() as int) == st0,
                        errors@ == er0,
                        forall|k: int|
                            0 <= k < present_nodes(nodes@.take(j as int)).len() ==> is_slot(
                                #[trigger] statements@[st0.len() + k],
                                Slot {
                                    start,
                                    end,
                                    node: Some(present_nodes(nodes@.take(j as int))[k]),
                                    text: chunk@,
                                },
                            ),
                    decreases nodes@.len() - j,
                {
                    assert(nodes@.take(j + 1).drop_last() =~= nodes@.take(j as int));
                    let ghost pn0 = present_nodes(nodes@.take(j as int));
                    let ghost stj = statements@;
                    let node = &nodes[j];
                    match node {
                        PgNode::Missing => {
                            assert(present_nodes(nodes@.take(j + 1)) =~= pn0);
                        },
                        _ => {
                            emitted = true;
                            proof {
                                assert(chunk_fits(results@[i as int], chunks@[i as int].0@, chunks@[i as int].1.start_spec()));
                                let ns = results@[i as int]->Ok_0;
                                assert(ns == *nodes);
                                assert(stmt_fits(ns@[j as int]) && stmt_shift_fits(ns@[j as int], chunk@, start));
                                assert(nodes@[j as int] == *node);
                            }
                            let mut kind = statement(node, chunk.as_str());
                            let ghost k0 = kind;
                            offset_ranges_in_kind(&mut kind, range.start());
                            let ghost k1 = kind;
                            statements.push(Statement { range, kind });
                            assert(present_nodes(nodes@.take(j + 1)) =~= pn0.push(*node));
                            assert(statements@.take(st0.len() as int) =~= stj.take(st0.len() as int));
                            assert forall|k: int|
                                0 <= k < pn0.len() + 1 implies is_slot(
                                #[trigger] statements@[st0.len() + k],
                                Slot { start, end, node: Some(pn0.push(*node)[k]), text: chunk@ },
                            ) by {
                                if k < pn0.len() {
                                    assert(statements@[st0.len() + k] == stj[st0.len() + k]);
                                    assert(pn0.push(*node)[k] == pn0[k]);
                                } else {
                                    assert(statements@[st0.len() + k].kind == k1);
                                    assert(pn0.push(*node)[k] == *node);
                                    assert(stmt_matches(k0, *node, chunk@) && kind_shifted(k0, k1, start));
                                    let sl = Slot { start, end, node: Some(*node), text: chunk@ };
                                    assert(stmt_matches(k0, sl.node->0, sl.text) && kind_shifted(k0, k1, sl.start));
                                    assert(is_slot(statements@[st0.len() + k], sl));
                                }
                            }
                        },
                    }
                    j += 1;
                }
                assert(nodes@.take(j as int) =~= nodes@);
                if !emitted {
                    statements.push(Statement { range, kind: StatementKind::Unknown { text: chunk.clone() } });
                    assert(statements@.take(st0.len() as int) =~= st0);
                }
                proof {
                    assert(cerrs =~= Seq::<(u32, u32, Seq<char>)>::empty());
                    assert forall|k: int| 0 <= k < cslots.len() implies is_slot(
                        #[trigger] statements@[st0.len() + k],
                        cslots[k],
                    ) by {}
                }
            },
            Err(e) => {
                let mut m = chars_of("pg_query: ");
                append_str(&mut m, e.as_str());
                errors.push(ParseError { range, message: string_from_chars(&m) });
                statements.push(Statement { range, kind: StatementKind::Unknown { text: chunk.clone() } });
                assert(statements@.take(st0.len() as int) =~= st0);
            },
        }
        proof {
            let slots1 = doc_slots(cs, rs);
            let errs1 = doc_errors(cs, rs);
            assert(slots1 =~= slots0 + cslots);
            assert(errs1 =~= errs0 + cerrs);
            assert forall|k: int| 0 <= k < slots1.len() implies is_slot(#[trigger] statements@[k], slots1[k]) by {
                if k < slots0.len() {
                    assert(statements@[k] == statements@.take(st0.len() as int)[k]);
                } else {
                    assert(statements@[k] == statements@[st0.len() + (k - st0.len())]);
                }
            }
            assert forall|k: int| 0 <= k < errs1.len() implies is_error(#[trigger] errors@[k], errs1[k]) by {
                if k < errs0.len() {
                    assert(errors@[k] == er0[k]);
                }
            }
        }
        i += 1;
    }
    assert(chunks@.take(i as int) =~= chunks@);
    assert(results@.take(i as int) =~= results@);
    ParsedFile { statements, errors }
}

/// One chunk cannot affect another: the statements and errors of a
/// document are those of any first chunks followed by those of the
/// remaining chunks, so a chunk that fails to parse contributes only its
/// own error and `Unknown` statement.
pub proof fn law_chunks_independent(
    chunks: Seq<(String, TextRange)>,
    results: Seq<Result<Vec<PgNode>, String>>,
    k: int,
)
    requires
        chunks.len() == results.len(),
        0 <= k <= chunks.len(),
    ensures
        doc_slots(chunks, results) == doc_slots(chunks.take(k), results.take(k)) + doc_slots(
            chunks.skip(k),
            results.skip(k),
        ),
        doc_errors(chunks, results) == doc_errors(chunks.take(k), results.take(k)) + doc_errors(
            chunks.skip(k),
            results.skip(k),
        ),
    decreases chunks.len(),
{
    if k == chunks.len() {
        assert(chunks.take(k) =~= chunks);
        assert(results.take(k) =~= results);
        assert(doc_slots(chunks.skip(k), results.skip(k)) =~= Seq::<Slot>::empty());
        assert(doc_errors(chunks.skip(k), results.skip(k)) =~= Seq::<(u32, u32, Seq<char>)>::empty());
        assert(doc_slots(chunks, results) + Seq::<Slot>::empty() =~= doc_slots(chunks, results));
        assert(doc_errors(chunks, results) + Seq::<(u32, u32, Seq<char>)>::empty() =~= doc_errors(chunks, results));
    } else {
        let c0 = chunks.drop_last();
        let r0 = results.drop_last();
        law_chunks_independent(c0, r0, k);
        assert(c0.take(k) =~= chunks.take(k));
        assert(r0.take(k) =~= results.take(k));
        assert(chunks.skip(k).drop_last() =~= c0.skip(k));
        assert(results.skip(k).drop_last() =~= r0.skip(k));
        assert(chunks.skip(k).last() == chunks.last());
        assert(results.skip(k).last() == results.last());
        let last_slots = chunk_slots(chunks.last().0@, chunks.last().1.start_spec(), chunks.last().1.end_spec(), results.last());
        let last_errs = chunk_errors(chunks.last().1.start_spec(), chunks.last().1.end_spec(), results.last());
        assert(doc_slots(chunks.take(k), results.take(k)) + doc_slots(c0.skip(k), r0.skip(k)) + last_slots
            =~= doc_slots(chunks.take(k), results.take(k)) + (doc_slots(c0.skip(k), r0.skip(k)) + last_slots));
        assert(doc_errors(chunks.take(k), results.take(k)) + doc_errors(c0.skip(k), r0.skip(k)) + last_errs
            =~= doc_errors(chunks.take(k), results.take(k)) + (doc_errors(c0.skip(k), r0.skip(k)) + last_errs));
    }
}

/// The number of chunks whose parse failed.
pub open spec fn failed_chunks(results: Seq<Result<Vec<PgNode>, String>>) -> nat
    decreases results.len(),
{
    if results.len() == 0 {
        0
    } else {
        failed_chunks(results.drop_last()) + if results.last() is Err {
            1nat
        } else {
            0nat
        }
    }
}

/// Parsing always succeeds and collects one error per chunk that failed
/// to parse, each with that chunk's range.
pub proof fn law_one_error_per_failed_chunk(
    chunks: Seq<(String, TextRange)>,
    results: Seq<Result<Vec<PgNode>, String>>,
)
    requires
        chunks.len() == results.len(),
    ensures
        doc_errors(chunks, results).len() == failed_chunks(results),
    decreases chunks.len(),
{
    if chunks.len() > 0 {
        law_one_error_per_failed_chunk(chunks.drop_last(), results.drop_last());
    }
}

} // verus!

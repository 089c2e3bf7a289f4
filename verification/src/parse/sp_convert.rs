//! sqlparser statement tree -> internal AST conversion. Only the slices
//! in use are projected; anything not modelled becomes
//! `StatementKind::Unknown` or `Expr::Other` with its SQL text.

use vstd::prelude::*;
use crate::knowledge::render::join_with;
use crate::parse::ast::{
    are_cols, is_col, is_unnamed, AlterTableStmt, ColV, ColumnDef, CreateTableStmt, DeleteStmt, DropTableStmt, Expr,
    InsertStmt, JoinClause, JoinKind, Projection, SelectStmt, StatementKind, TableRef, TableRefV, UpdateStmt,
};
use crate::parse::pg_convert::{synthetic_ref, table_views};
use crate::parse::range::TextRange;
use crate::parse::sp_node::{
    SpColumnDef, SpColumnOption, SpExpr, SpJoin, SpJoinConstraint, SpJoinOperator, SpObjectType, SpQuery, SpSelect, SpSelectItem,
    SpStatement, SpTableFactor, SpTableWithJoins,
};
use crate::text::{append_str, string_from_chars};

verus! {

/// The views of a list of strings.
pub open spec fn texts(v: Seq<String>) -> Seq<Seq<char>> {
    v.map_values(|s: String| s@)
}

/// The schema and table of a dotted object name: `schema.table` for two
/// parts, else no schema and all parts joined by dots.
pub open spec fn split_name(ps: Seq<Seq<char>>) -> (Option<Seq<char>>, Seq<char>) {
    if ps.len() == 2 {
        (Some(ps[0]), ps[1])
    } else {
        (None, join_with(ps, "."@))
    }
}

/// The parts joined by dots.
fn join_dots(parts: &Vec<String>) -> (r: String)
    ensures
        r@ == join_with(texts(parts@), "."@),
{
    let ghost p = texts(parts@);
    let mut out: Vec<char> = Vec::new();
    let mut i: usize = 0;
    while i < parts.len()
        invariant
            0 <= i <= parts@.len() == p.len(),
            p == texts(parts@),
            out@ == join_with(p.take(i as int), "."@),
        decreases parts@.len() - i,
    {
        assert(p.take(i + 1).drop_last() =~= p.take(i as int));
        if i > 0 {
            append_str(&mut out, ".");
        }
        append_str(&mut out, parts[i].as_str());
        proof {
            if i == 0 {
                assert(out@ =~= p.take(1)[0]);
            }
        }
        i += 1;
    }
    assert(p.take(i as int) =~= p);
    string_from_chars(&out)
}

/// Splits a dotted object name into schema and table (see `split_name`).
pub fn split_object_name(parts: &Vec<String>) -> (r: (Option<String>, String))
    ensures
        (r.0.deep_view(), r.1@) == split_name(texts(parts@)),
{
    if parts.len() == 2 {
        (Some(parts[0].clone()), parts[1].clone())
    } else {
        (None, join_dots(parts))
    }
}

/// The table an object name stands for, without alias, at the empty range.
pub open spec fn object_ref(ps: Seq<Seq<char>>) -> TableRefV {
    TableRefV { schema: split_name(ps).0, name: split_name(ps).1, alias: None, start: 0, end: 0 }
}

/// The table an object name stands for (see `object_ref`).
pub fn object_name(parts: &Vec<String>) -> (t: TableRef)
    ensures
        t@ == object_ref(texts(parts@)),
{
    let (schema, name) = split_object_name(parts);
    TableRef { schema, name, alias: None, range: TextRange::empty() }
}

/// The table a FROM source stands for: a named table split into schema
/// and name with its alias; a function (`<func>`), whether sqlparser gives
/// it as a table called with arguments or as a function, or a derived
/// table (`<subq>`), named and aliased by its alias (empty name without
/// one); the nameless table for anything else.
pub open spec fn factor_ref(t: SpTableFactor) -> TableRefV {
    match t {
        SpTableFactor::Table { alias, args: Some(_), .. } => TableRefV {
            schema: Some("<func>"@),
            name: match alias {
                Some(a) => a@,
                None => Seq::<char>::empty(),
            },
            alias: alias.deep_view(),
            start: 0,
            end: 0,
        },
        SpTableFactor::Table { name, alias, args: None } => TableRefV {
            schema: split_name(texts(name@)).0,
            name: split_name(texts(name@)).1,
            alias: alias.deep_view(),
            start: 0,
            end: 0,
        },
        SpTableFactor::Function { alias } => TableRefV {
            schema: Some("<func>"@),
            name: match alias {
                Some(a) => a@,
                None => Seq::<char>::empty(),
            },
            alias: alias.deep_view(),
            start: 0,
            end: 0,
        },
        SpTableFactor::Derived { alias } => TableRefV {
            schema: Some("<subq>"@),
            name: match alias {
                Some(a) => a@,
                None => Seq::<char>::empty(),
            },
            alias: alias.deep_view(),
            start: 0,
            end: 0,
        },
        SpTableFactor::Other => TableRefV {
            schema: None,
            name: Seq::<char>::empty(),
            alias: None,
            start: 0,
            end: 0,
        },
    }
}

/// A synthetic binding `marker` named by an optional alias.
fn marked(marker: &str, alias: &Option<String>) -> (t: TableRef)
    ensures
        t.schema.deep_view() == Some(marker@),
        t.name@ == match alias {
            Some(a) => a@,
            None => Seq::<char>::empty(),
        },
        t.alias.deep_view() == alias.deep_view(),
        t.range.start_spec() == 0,
        t.range.end_spec() == 0,
{
    let name = match alias {
        Some(a) => a.clone(),
        None => String::new(),
    };
    let alias2 = match alias {
        Some(a) => Some(a.clone()),
        None => None,
    };
    TableRef { schema: Some(marker.to_owned()), name, alias: alias2, range: TextRange::empty() }
}

/// The table a FROM source stands for (see `factor_ref`).
pub fn table_factor(tf: &SpTableFactor) -> (t: TableRef)
    ensures
        t@ == factor_ref(*tf),
{
    match tf {
        SpTableFactor::Table { alias, args: Some(_), .. } => marked("<func>", alias),
        SpTableFactor::Table { name, alias, args: None } => {
            let (schema, table_name) = split_object_name(name);
            let alias2 = match alias {
                Some(a) => Some(a.clone()),
                None => None,
            };
            TableRef { schema, name: table_name, alias: alias2, range: TextRange::empty() }
        },
        SpTableFactor::Function { alias } => marked("<func>", alias),
        SpTableFactor::Derived { alias } => marked("<subq>", alias),
        SpTableFactor::Other => TableRef::unnamed(),
    }
}

/// `out` is the expression `e`: an identifier as a column without
/// qualifier; a compound identifier as a column named by its last part
/// and qualified by the part before it (by its only part when it has
/// one, unqualified and unnamed when it has none); anything else as
/// unmodelled text.
pub open spec fn is_expr(out: Expr, e: SpExpr) -> bool {
    match e {
        SpExpr::Identifier(id) => is_col(out, (None::<Seq<char>>, id@)),
        SpExpr::CompoundIdentifier(parts) => {
            let ps = texts(parts@);
            let q = if ps.len() >= 2 {
                Some(ps[ps.len() - 2])
            } else if ps.len() == 1 {
                Some(ps[0])
            } else {
                None
            };
            let n = if ps.len() > 0 {
                ps.last()
            } else {
                Seq::<char>::empty()
            };
            is_col(out, (q, n))
        },
        SpExpr::Other(t) => out matches Expr::Other(x) && x@ == t@,
    }
}

/// The expression in the internal AST (see `is_expr`).
pub fn expr(e: &SpExpr) -> (out: Expr)
    ensures
        is_expr(out, *e),
{
    match e {
        SpExpr::Identifier(id) => Expr::Column { qualifier: None, name: id.clone(), range: TextRange::empty() },
        SpExpr::CompoundIdentifier(parts) => {
            let n = parts.len();
            let k = if n >= 2 {
                n - 2
            } else {
                0
            };
            let qual = if k < n {
                Some(parts[k].clone())
            } else {
                None
            };
            let name = if n > 0 {
                parts[n - 1].clone()
            } else {
                String::new()
            };
            Expr::Column { qualifier: qual, name, range: TextRange::empty() }
        },
        SpExpr::Other(t) => Expr::Other(t.clone()),
    }
}

/// `out` is the SELECT item `p`: `*`, `q.*` with the qualifier's text,
/// or an expression with its alias.
pub open spec fn is_item(out: Projection, p: SpSelectItem) -> bool {
    match p {
        SpSelectItem::Wildcard => out is Star,
        SpSelectItem::QualifiedWildcard(n) => out matches Projection::QualifiedStar(q) && q@ == n@,
        SpSelectItem::UnnamedExpr(e) => out matches Projection::Expr { expr, alias } && is_expr(expr, e)
            && alias is None,
        SpSelectItem::ExprWithAlias { expr: e, alias: a } => out matches Projection::Expr { expr, alias }
            && is_expr(expr, e) && alias.deep_view() == Some(a@),
    }
}

/// The projection of a SELECT item (see `is_item`).
pub fn projection(p: &SpSelectItem) -> (out: Projection)
    ensures
        is_item(out, *p),
{
    match p {
        SpSelectItem::Wildcard => Projection::Star,
        SpSelectItem::QualifiedWildcard(n) => Projection::QualifiedStar(n.clone()),
        SpSelectItem::UnnamedExpr(e) => Projection::Expr { expr: expr(e), alias: None },
        SpSelectItem::ExprWithAlias { expr: e, alias } => Projection::Expr { expr: expr(e), alias: Some(alias.clone()) },
    }
}

/// The join kind of a join operator: inner, left, right, full and cross
/// as themselves, anything else as inner.
pub open spec fn op_kind(op: SpJoinOperator) -> JoinKind {
    match op {
        SpJoinOperator::Inner(_) => JoinKind::Inner,
        SpJoinOperator::LeftOuter(_) => JoinKind::Left,
        SpJoinOperator::RightOuter(_) => JoinKind::Right,
        SpJoinOperator::FullOuter(_) => JoinKind::Full,
        SpJoinOperator::CrossJoin => JoinKind::Cross,
        SpJoinOperator::Other => JoinKind::Inner,
    }
}

/// The join kind of a join operator (see `op_kind`).
pub fn join_kind(op: &SpJoinOperator) -> (k: JoinKind)
    ensures
        k == op_kind(*op),
{
    match op {
        SpJoinOperator::Inner(_) => JoinKind::Inner,
        SpJoinOperator::LeftOuter(_) => JoinKind::Left,
        SpJoinOperator::RightOuter(_) => JoinKind::Right,
        SpJoinOperator::FullOuter(_) => JoinKind::Full,
        SpJoinOperator::CrossJoin => JoinKind::Cross,
        SpJoinOperator::Other => JoinKind::Inner,
    }
}

/// The ON expression of an inner, left, right or full join with an ON
/// constraint; none for any other operator or constraint.
pub open spec fn op_on(op: SpJoinOperator) -> Option<SpExpr> {
    match op {
        SpJoinOperator::Inner(c) | SpJoinOperator::LeftOuter(c) | SpJoinOperator::RightOuter(c)
        | SpJoinOperator::FullOuter(c) => match c {
            SpJoinConstraint::On(e) => Some(e),
            SpJoinConstraint::Other => None,
        },
        _ => None,
    }
}

/// The ON expression of a join operator (see `op_on`).
pub fn join_on(op: &SpJoinOperator) -> (r: Option<&SpExpr>)
    ensures
        match r {
            Some(e) => op_on(*op) == Some(*e),
            None => op_on(*op) is None,
        },
{
    match op {
        SpJoinOperator::Inner(c) | SpJoinOperator::LeftOuter(c) | SpJoinOperator::RightOuter(c)
        | SpJoinOperator::FullOuter(c) => match c {
            SpJoinConstraint::On(e) => Some(e),
            SpJoinConstraint::Other => None,
        },
        _ => None,
    }
}

/// `j` is the join `sj`: its kind, table, and ON expression.
pub open spec fn is_sp_join(j: JoinClause, sj: SpJoin) -> bool {
    &&& j.kind == op_kind(sj.join_operator)
    &&& j.table@ == factor_ref(sj.relation)
    &&& match op_on(sj.join_operator) {
        Some(e) => j.on matches Some(x) && is_expr(x, e),
        None => j.on is None,
    }
}

/// The FROM tables of a SELECT: each FROM item's own table.
pub open spec fn from_refs(from: Seq<SpTableWithJoins>) -> Seq<TableRefV> {
    from.map_values(|t: SpTableWithJoins| factor_ref(t.relation))
}

/// The joins of a SELECT: every FROM item's joins, in order.
pub open spec fn from_joins(from: Seq<SpTableWithJoins>) -> Seq<SpJoin>
    decreases from.len(),
{
    if from.len() == 0 {
        Seq::<SpJoin>::empty()
    } else {
        from_joins(from.drop_last()) + from.last().joins@
    }
}

/// `out` is the SELECT `s`: its items, its FROM tables and joins, and
/// its WHERE expression; no CTE names.
pub open spec fn is_select(out: SelectStmt, s: SpSelect) -> bool {
    &&& out.projections@.len() == s.projection@.len()
    &&& forall|i: int| 0 <= i < s.projection@.len() ==> is_item(#[trigger] out.projections@[i], s.projection@[i])
    &&& table_views(out.from@) == from_refs(s.from@)
    &&& out.joins@.len() == from_joins(s.from@).len()
    &&& forall|i: int| 0 <= i < out.joins@.len() ==> is_sp_join(#[trigger] out.joins@[i], from_joins(s.from@)[i])
    &&& match s.selection {
        Some(e) => out.where_clause matches Some(x) && is_expr(x, e),
        None => out.where_clause is None,
    }
    &&& out.cte_names@.len() == 0
}

/// `out` is the SELECT `s` (see `is_select`) but for its CTE names.
pub open spec fn is_select_body(out: SelectStmt, s: SpSelect) -> bool {
    &&& out.projections@.len() == s.projection@.len()
    &&& forall|i: int| 0 <= i < s.projection@.len() ==> is_item(#[trigger] out.projections@[i], s.projection@[i])
    &&& table_views(out.from@) == from_refs(s.from@)
    &&& out.joins@.len() == from_joins(s.from@).len()
    &&& forall|i: int| 0 <= i < out.joins@.len() ==> is_sp_join(#[trigger] out.joins@[i], from_joins(s.from@)[i])
    &&& match s.selection {
        Some(e) => out.where_clause matches Some(x) && is_expr(x, e),
        None => out.where_clause is None,
    }
}

/// The SELECT in the internal AST (see `is_select`).
pub fn select(s: &SpSelect) -> (out: SelectStmt)
    ensures
        is_select(out, *s),
{
    let mut projections: Vec<Projection> = Vec::new();
    let mut i: usize = 0;
    while i < s.projection.len()
        invariant
            0 <= i <= s.projection@.len(),
            projections@.len() == i,
            forall|k: int| 0 <= k < i ==> is_item(#[trigger] projections@[k], s.projection@[k]),
        decreases s.projection@.len() - i,
    {
        projections.push(projection(&s.projection[i]));
        i += 1;
    }
    let mut from: Vec<TableRef> = Vec::new();
    let mut joins: Vec<JoinClause> = Vec::new();
    let mut t: usize = 0;
    while t < s.from.len()
        invariant
            0 <= t <= s.from@.len(),
            table_views(from@) == from_refs(s.from@.take(t as int)),
            joins@.len() == from_joins(s.from@.take(t as int)).len(),
            forall|k: int|
                0 <= k < joins@.len() ==> is_sp_join(#[trigger] joins@[k], from_joins(s.from@.take(t as int))[k]),
        decreases s.from@.len() - t,
    {
        let twj = &s.from[t];
        let ghost js0 = from_joins(s.from@.take(t as int));
        assert(s.from@.take(t + 1).drop_last() =~= s.from@.take(t as int));
        let tf = table_factor(&twj.relation);
        let ghost f0 = from@;
        let ghost tfv = tf@;
        from.push(tf);
        assert(table_views(from@) =~= table_views(f0).push(tfv));
        assert(from_refs(s.from@.take(t + 1)) =~= from_refs(s.from@.take(t as int)).push(factor_ref(twj.relation)));
        let mut j: usize = 0;
        let ghost j0 = joins@;
        while j < twj.joins.len()
            invariant
                0 <= j <= twj.joins@.len(),
                joins@.len() == j0.len() + j,
                joins@.take(j0.len() as int) == j0,
                forall|k: int| 0 <= k < j ==> is_sp_join(#[trigger] joins@[j0.len() + k], twj.joins@[k]),
            decreases twj.joins@.len() - j,
        {
            let sj = &twj.joins[j];
            let on = match join_on(&sj.join_operator) {
                Some(e) => Some(expr(e)),
                None => None,
            };
            let jc = JoinClause { kind: join_kind(&sj.join_operator), table: table_factor(&sj.relation), on };
            let ghost before = joins@;
            joins.push(jc);
            assert(joins@.take(j0.len() as int) =~= before.take(j0.len() as int));
            assert forall|k: int| 0 <= k < j + 1 implies is_sp_join(#[trigger] joins@[j0.len() + k], twj.joins@[k]) by {
                if k < j {
                    assert(joins@[j0.len() + k] == before[j0.len() + k]);
                }
            }
            j += 1;
        }
        proof {
            let js1 = from_joins(s.from@.take(t + 1));
            assert(js1 =~= js0 + twj.joins@);
            assert forall|k: int| 0 <= k < joins@.len() implies is_sp_join(#[trigger] joins@[k], js1[k]) by {
                if k < j0.len() {
                    assert(joins@[k] == joins@.take(j0.len() as int)[k]);
                } else {
                    assert(joins@[k] == joins@[j0.len() + (k - j0.len())]);
                }
            }
        }
        t += 1;
    }
    assert(s.from@.take(t as int) =~= s.from@);
    let where_clause = match &s.selection {
        Some(e) => Some(expr(e)),
        None => None,
    };
    SelectStmt { projections, from, joins, where_clause, cte_names: Vec::new() }
}

/// `k` is the query `q`: a plain SELECT body as a SELECT carrying the
/// query's CTE names; anything else as `Unknown` with the query's text.
pub open spec fn is_query(k: StatementKind, q: SpQuery) -> bool {
    match q.select {
        Some(s) => {
            &&& k matches StatementKind::Select(x)
            &&& is_select_body(x, s)
            &&& texts(x.cte_names@) == match q.ctes {
                Some(v) => texts(v@),
                None => Seq::<Seq<char>>::empty(),
            }
        },
        None => k matches StatementKind::Unknown { text } && text@ == q.text@,
    }
}

fn copy_texts(v: &Vec<String>) -> (r: Vec<String>)
    ensures
        texts(r@) == texts(v@),
{
    let mut r: Vec<String> = Vec::new();
    let mut i: usize = 0;
    while i < v.len()
        invariant
            0 <= i <= v@.len(),
            texts(r@) == texts(v@.take(i as int)),
        decreases v@.len() - i,
    {
        let ghost before = r@;
        let x = v[i].clone();
        r.push(x);
        assert(texts(r@) =~= texts(before).push(x@));
        assert(texts(v@.take(i + 1)) =~= texts(v@.take(i as int)).push(v@[i as int]@));
        i += 1;
    }
    assert(v@.take(i as int) =~= v@);
    r
}

/// The query in the internal AST (see `is_query`).
pub fn query(q: &SpQuery) -> (k: StatementKind)
    ensures
        is_query(k, *q),
{
    let ctes = match &q.ctes {
        Some(v) => copy_texts(v),
        None => {
            let e: Vec<String> = Vec::new();
            assert(texts(e@) =~= Seq::<Seq<char>>::empty());
            e
        },
    };
    match &q.select {
        Some(sel) => {
            let stmt = select(sel);
            let out = SelectStmt {
                projections: stmt.projections,
                from: stmt.from,
                joins: stmt.joins,
                where_clause: stmt.where_clause,
                cte_names: ctes,
            };
            StatementKind::Select(out)
        },
        None => StatementKind::Unknown { text: q.text.clone() },
    }
}

/// `NOT NULL`, or `UNIQUE` that is `PRIMARY KEY`.
pub open spec fn forbids_null(o: SpColumnOption) -> bool {
    match o {
        SpColumnOption::NotNull => true,
        SpColumnOption::Unique { is_primary } => is_primary,
        _ => false,
    }
}

/// The text of the first `DEFAULT` among some column options.
pub open spec fn first_default(os: Seq<SpColumnOption>) -> Option<Seq<char>>
    decreases os.len(),
{
    if os.len() == 0 {
        None
    } else {
        match first_default(os.drop_last()) {
            Some(x) => Some(x),
            None => match os.last() {
                SpColumnOption::Default(e) => Some(e@),
                _ => None,
            },
        }
    }
}

/// `c` is the column definition `d`: its name and type text, nullable
/// unless an option forbids null, and its first default.
pub open spec fn is_sp_coldef(c: ColumnDef, d: SpColumnDef) -> bool {
    &&& c.name@ == d.name@
    &&& c.sql_type@ == d.data_type@
    &&& c.nullable == !(exists|i: int| 0 <= i < d.options@.len() && forbids_null(#[trigger] d.options@[i]))
    &&& c.default.deep_view() == first_default(d.options@)
    &&& c.range.start_spec() == 0
    &&& c.range.end_spec() == 0
}

/// The column definition in the internal AST (see `is_sp_coldef`).
pub fn column_def(c: &SpColumnDef) -> (col: ColumnDef)
    ensures
        is_sp_coldef(col, *c),
{
    let os = &c.options;
    let mut not_null = false;
    let mut default: Option<String> = None;
    let mut i: usize = 0;
    while i < os.len()
        invariant
            0 <= i <= os@.len(),
            not_null == (exists|k: int| 0 <= k < i && forbids_null(#[trigger] os@[k])),
            default.deep_view() == first_default(os@.take(i as int)),
        decreases os@.len() - i,
    {
        assert(os@.take(i + 1).drop_last() =~= os@.take(i as int));
        match &os[i] {
            SpColumnOption::NotNull => {
                not_null = true;
            },
            SpColumnOption::Unique { is_primary } => {
                if *is_primary {
                    not_null = true;
                }
            },
            SpColumnOption::Default(e) => {
                if default.is_none() {
                    default = Some(e.clone());
                }
            },
            SpColumnOption::Other => {},
        }
        assert(forbids_null(os@[i as int]) ==> (exists|k: int| 0 <= k < i + 1 && forbids_null(#[trigger] os@[k])));
        i += 1;
    }
    assert(os@.take(i as int) =~= os@);
    ColumnDef {
        name: c.name.clone(),
        sql_type: c.data_type.clone(),
        nullable: !not_null,
        default,
        range: TextRange::empty(),
    }
}

/// `out` is the optional SQL text `t` as an unmodelled expression.
pub open spec fn is_text_expr(out: Option<Expr>, t: Option<String>) -> bool {
    match t {
        Some(x) => out matches Some(Expr::Other(y)) && y@ == x@,
        None => out is None,
    }
}

/// `k` is the statement `s` in the internal AST: a query (see
/// `is_query`); an `INSERT` with its table and columns; an `UPDATE` with
/// its table, its assignments as target text and unmodelled value text,
/// its WHERE text and its FROM table; a `DELETE` of its first FROM table
/// (the nameless table without one) with its WHERE text and USING
/// tables; `CREATE TABLE`, `ALTER TABLE` and `DROP TABLE` with their
/// tables; anything else as `Unknown` with its text.
pub open spec fn is_sp_stmt(k: StatementKind, s: SpStatement) -> bool {
    match s {
        SpStatement::Query(q) => is_query(k, q),
        SpStatement::Insert { table_name, columns } => {
            &&& k matches StatementKind::Insert(i)
            &&& i.table@ == object_ref(texts(table_name@))
            &&& texts(i.columns@) == texts(columns@)
        },
        SpStatement::Update { table, assignments, from, selection } => {
            &&& k matches StatementKind::Update(u)
            &&& u.table@ == factor_ref(table.relation)
            &&& u.assignments@.len() == assignments@.len()
            &&& forall|i: int|
                0 <= i < assignments@.len() ==> {
                    &&& (#[trigger] u.assignments@[i]).0@ == assignments@[i].0@
                    &&& u.assignments@[i].1 matches Expr::Other(t)
                    &&& t@ == assignments@[i].1@
                }
            &&& is_text_expr(u.where_clause, selection)
            &&& table_views(u.from_tables@) == match from {
                Some(t) => seq![factor_ref(t.relation)],
                None => Seq::<TableRefV>::empty(),
            }
        },
        SpStatement::Delete { from, using, selection } => {
            &&& k matches StatementKind::Delete(d)
            &&& d.table@ == if from@.len() > 0 {
                factor_ref(from@[0].relation)
            } else {
                TableRefV { schema: None, name: Seq::<char>::empty(), alias: None, start: 0, end: 0 }
            }
            &&& is_text_expr(d.where_clause, selection)
            &&& table_views(d.using_tables@) == match using {
                Some(v) => from_refs(v@),
                None => Seq::<TableRefV>::empty(),
            }
        },
        SpStatement::CreateTable { name, if_not_exists, columns } => {
            &&& k matches StatementKind::CreateTable(c)
            &&& c.table@ == object_ref(texts(name@))
            &&& c.if_not_exists == if_not_exists
            &&& c.columns@.len() == columns@.len()
            &&& forall|i: int| 0 <= i < columns@.len() ==> is_sp_coldef(#[trigger] c.columns@[i], columns@[i])
        },
        SpStatement::AlterTable { name } => k matches StatementKind::AlterTable(a) && a.table@ == object_ref(
            texts(name@),
        ),
        SpStatement::Drop { object_type, if_exists, names, text } => match object_type {
            SpObjectType::Table => {
                &&& k matches StatementKind::DropTable(d)
                &&& table_views(d.tables@) == names@.map_values(|n: Vec<String>| object_ref(texts(n@)))
                &&& d.if_exists == if_exists
            },
            SpObjectType::Other => k matches StatementKind::Unknown { text: t } && t@ == text@,
        },
        SpStatement::Other(t) => k matches StatementKind::Unknown { text } && text@ == t@,
    }
}

fn text_expr(t: &Option<String>) -> (out: Option<Expr>)
    ensures
        is_text_expr(out, *t),
{
    match t {
        Some(x) => Some(Expr::Other(x.clone())),
        None => None,
    }
}

/// The tables of a list of FROM items (see `from_refs`).
fn factors_of(v: &Vec<SpTableWithJoins>) -> (r: Vec<TableRef>)
    ensures
        table_views(r@) == from_refs(v@),
{
    let mut r: Vec<TableRef> = Vec::new();
    let mut i: usize = 0;
    while i < v.len()
        invariant
            0 <= i <= v@.len(),
            table_views(r@) == from_refs(v@.take(i as int)),
        decreases v@.len() - i,
    {
        let ghost before = r@;
        let t = table_factor(&v[i].relation);
        let ghost tv = t@;
        r.push(t);
        assert(table_views(r@) =~= table_views(before).push(tv));
        assert(from_refs(v@.take(i + 1)) =~= from_refs(v@.take(i as int)).push(factor_ref(v@[i as int].relation)));
        i += 1;
    }
    assert(v@.take(i as int) =~= v@);
    r
}

/// The statement in the internal AST (see `is_sp_stmt`).
pub fn statement(s: &SpStatement, _raw: &str) -> (k: StatementKind)
    ensures
        is_sp_stmt(k, *s),
{
    match s {
        SpStatement::Query(q) => query(q),
        SpStatement::Insert { table_name, columns } => StatementKind::Insert(
            InsertStmt { table: object_name(table_name), columns: copy_texts(columns) },
        ),
        SpStatement::Update { table, assignments, from, selection } => {
            let from_tables = match from {
                Some(t) => {
                    let r = vec![table_factor(&t.relation)];
                    assert(table_views(r@) =~= seq![factor_ref(t.relation)]);
                    r
                },
                None => {
                    let r: Vec<TableRef> = Vec::new();
                    assert(table_views(r@) =~= Seq::<TableRefV>::empty());
                    r
                },
            };
            let mut assigned: Vec<(String, Expr)> = Vec::new();
            let mut i: usize = 0;
            while i < assignments.len()
                invariant
                    0 <= i <= assignments@.len(),
                    assigned@.len() == i,
                    forall|k: int|
                        0 <= k < i ==> {
                            &&& (#[trigger] assigned@[k]).0@ == assignments@[k].0@
                            &&& assigned@[k].1 matches Expr::Other(t)
                            &&& t@ == assignments@[k].1@
                        },
                decreases assignments@.len() - i,
            {
                let (target, value) = &assignments[i];
                assigned.push((target.clone(), Expr::Other(value.clone())));
                i += 1;
            }
            StatementKind::Update(
                UpdateStmt {
                    table: table_factor(&table.relation),
                    assignments: assigned,
                    where_clause: text_expr(selection),
                    from_tables,
                },
            )
        },
        SpStatement::Delete { from, using, selection } => {
            let table = if from.len() > 0 {
                table_factor(&from[0].relation)
            } else {
                TableRef::unnamed()
            };
            let using_tables = match using {
                Some(v) => factors_of(v),
                None => {
                    let r: Vec<TableRef> = Vec::new();
                    assert(table_views(r@) =~= Seq::<TableRefV>::empty());
                    r
                },
            };
            StatementKind::Delete(DeleteStmt { table, where_clause: text_expr(selection), using_tables })
        },
        SpStatement::CreateTable { name, if_not_exists, columns } => {
            let mut cols: Vec<ColumnDef> = Vec::new();
            let mut i: usize = 0;
            while i < columns.len()
                invariant
                    0 <= i <= columns@.len(),
                    cols@.len() == i,
                    forall|k: int| 0 <= k < i ==> is_sp_coldef(#[trigger] cols@[k], columns@[k]),
                decreases columns@.len() - i,
            {
                cols.push(column_def(&columns[i]));
                i += 1;
            }
            StatementKind::CreateTable(
                CreateTableStmt { table: object_name(name), if_not_exists: *if_not_exists, columns: cols },
            )
        },
        SpStatement::AlterTable { name } => StatementKind::AlterTable(AlterTableStmt { table: object_name(name) }),
        SpStatement::Drop { object_type: SpObjectType::Other, text, .. } => StatementKind::Unknown {
            text: text.clone(),
        },
        SpStatement::Drop { object_type: SpObjectType::Table, if_exists, names, .. } => {
            let mut tables: Vec<TableRef> = Vec::new();
            let mut i: usize = 0;
            while i < names.len()
                invariant
                    0 <= i <= names@.len(),
                    table_views(tables@) == names@.take(i as int).map_values(
                        |n: Vec<String>| object_ref(texts(n@)),
                    ),
                decreases names@.len() - i,
            {
                let ghost before = tables@;
                let t = object_name(&names[i]);
                let ghost tv = t@;
                tables.push(t);
                assert(table_views(tables@) =~= table_views(before).push(tv));
                assert(names@.take(i + 1).map_values(|n: Vec<String>| object_ref(texts(n@))) =~= names@.take(
                    i as int,
                ).map_values(|n: Vec<String>| object_ref(texts(n@))).push(object_ref(texts(names@[i as int]@))));
                i += 1;
            }
            assert(names@.take(i as int) =~= names@);
            StatementKind::DropTable(DropTableStmt { tables, if_exists: *if_exists })
        },
        SpStatement::Other(t) => StatementKind::Unknown { text: t.clone() },
    }
}

/// `PRIMARY KEY` implies `NOT NULL`: a column converted from a
/// definition with a primary-key option is not nullable.
pub proof fn law_primary_key_not_null(col: ColumnDef, d: SpColumnDef, i: int)
    requires
        is_sp_coldef(col, d),
        0 <= i < d.options@.len(),
        d.options@[i] == (SpColumnOption::Unique { is_primary: true }),
    ensures
        !col.nullable,
{
    assert(forbids_null(d.options@[i]));
}

/// A statement the conversion does not model, or a query that is not a
/// plain SELECT, comes out as `Unknown` carrying its SQL text.
pub proof fn law_unmodelled_statement_keeps_text(k: StatementKind, s: SpStatement)
    requires
        is_sp_stmt(k, s),
        s is Other || (s matches SpStatement::Query(q) && q.select is None),
    ensures
        k matches StatementKind::Unknown { text: t } && t@ == match s {
            SpStatement::Other(x) => x@,
            SpStatement::Query(q) => q.text@,
            _ => Seq::<char>::empty(),
        },
{
}

/// The ON condition of a join is never dropped, whatever the join's kind:
/// a plain or `INNER` join, or a `LEFT`, `RIGHT` or `FULL` outer join,
/// whose operator carries `ON e` converts to a join of that kind whose
/// condition is `e` converted.
pub proof fn law_join_keeps_its_on_condition(j: JoinClause, sj: SpJoin, e: SpExpr)
    requires
        is_sp_join(j, sj),
        sj.join_operator == SpJoinOperator::Inner(SpJoinConstraint::On(e)) || sj.join_operator
            == SpJoinOperator::LeftOuter(SpJoinConstraint::On(e)) || sj.join_operator
            == SpJoinOperator::RightOuter(SpJoinConstraint::On(e)) || sj.join_operator
            == SpJoinOperator::FullOuter(SpJoinConstraint::On(e)),
    ensures
        j.on matches Some(x) && is_expr(x, e),
        sj.join_operator == SpJoinOperator::Inner(SpJoinConstraint::On(e)) ==> j.kind == JoinKind::Inner,
        sj.join_operator == SpJoinOperator::LeftOuter(SpJoinConstraint::On(e)) ==> j.kind == JoinKind::Left,
        sj.join_operator == SpJoinOperator::RightOuter(SpJoinConstraint::On(e)) ==> j.kind == JoinKind::Right,
        sj.join_operator == SpJoinOperator::FullOuter(SpJoinConstraint::On(e)) ==> j.kind == JoinKind::Full,
{
}

/// A cross join converts to a cross join without a condition, and a join
/// whose operator has no `ON` (a `USING` or `NATURAL` constraint, or a
/// kind the AST does not model) has no condition either.
pub proof fn law_join_without_on_has_no_condition(j: JoinClause, sj: SpJoin)
    requires
        is_sp_join(j, sj),
        !(exists|e: SpExpr|
            sj.join_operator == SpJoinOperator::Inner(SpJoinConstraint::On(e)) || sj.join_operator
                == SpJoinOperator::LeftOuter(SpJoinConstraint::On(e)) || sj.join_operator
                == SpJoinOperator::RightOuter(SpJoinConstraint::On(e)) || sj.join_operator
                == SpJoinOperator::FullOuter(SpJoinConstraint::On(e))),
    ensures
        j.on is None,
        sj.join_operator == SpJoinOperator::CrossJoin ==> j.kind == JoinKind::Cross,
{
    match sj.join_operator {
        SpJoinOperator::Inner(c) | SpJoinOperator::LeftOuter(c) | SpJoinOperator::RightOuter(c)
        | SpJoinOperator::FullOuter(c) => {
            if let SpJoinConstraint::On(e) = c {
                assert(sj.join_operator == SpJoinOperator::Inner(SpJoinConstraint::On(e)) || sj.join_operator
                    == SpJoinOperator::LeftOuter(SpJoinConstraint::On(e)) || sj.join_operator
                    == SpJoinOperator::RightOuter(SpJoinConstraint::On(e)) || sj.join_operator
                    == SpJoinOperator::FullOuter(SpJoinConstraint::On(e)));
            }
        },
        _ => {},
    }
}

/// In a converted SELECT, every join of its FROM items whose operator
/// carries `ON e` keeps `e`, converted, as its condition.
pub proof fn law_select_joins_keep_their_on_conditions(k: StatementKind, q: SpQuery, s: SpSelect, i: int, e: SpExpr)
    requires
        is_sp_stmt(k, SpStatement::Query(q)),
        q.select == Some(s),
        0 <= i < from_joins(s.from@).len(),
        from_joins(s.from@)[i].join_operator == SpJoinOperator::Inner(SpJoinConstraint::On(e))
            || from_joins(s.from@)[i].join_operator == SpJoinOperator::LeftOuter(SpJoinConstraint::On(e))
            || from_joins(s.from@)[i].join_operator == SpJoinOperator::RightOuter(SpJoinConstraint::On(e))
            || from_joins(s.from@)[i].join_operator == SpJoinOperator::FullOuter(SpJoinConstraint::On(e)),
    ensures
        k matches StatementKind::Select(x) && x.joins@[i].on matches Some(c) && is_expr(c, e),
{
    let x = k->Select_0;
    assert(is_sp_join(x.joins@[i], from_joins(s.from@)[i]));
    law_join_keeps_its_on_condition(x.joins@[i], from_joins(s.from@)[i], e);
}

} // verus!

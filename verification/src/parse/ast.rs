//! The internal AST shape consumed by every downstream crate.
//!
//! Kept small on purpose: only the fields needed for completion, hover
//! and analysis.

use vstd::prelude::*;
use crate::parse::range::TextRange;

verus! {

/// One top-level statement and the byte range it was parsed from.
#[derive(Debug, Clone)]
pub struct Statement {
    pub range: TextRange,
    pub kind: StatementKind,
}

#[derive(Debug, Clone)]
pub enum StatementKind {
    Select(SelectStmt),
    Insert(InsertStmt),
    Update(UpdateStmt),
    Delete(DeleteStmt),
    CreateTable(CreateTableStmt),
    AlterTable(AlterTableStmt),
    DropTable(DropTableStmt),
    /// Any statement not modelled, or one that failed to parse.
    Unknown { text: String },
}

#[derive(Debug, Clone, Default)]
pub struct SelectStmt {
    pub projections: Vec<Projection>,
    pub from: Vec<TableRef>,
    pub joins: Vec<JoinClause>,
    pub where_clause: Option<Expr>,
    /// CTE names declared in a leading `WITH x AS (...) [, y AS (...)]`,
    /// so that references to them resolve as scope tables.
    pub cte_names: Vec<String>,
}

#[derive(Debug, Clone)]
pub enum Projection {
    Star,
    QualifiedStar(String),
    Expr { expr: Expr, alias: Option<String> },
}

#[derive(Debug, Clone)]
pub struct TableRef {
    /// `schema.table` -- schema is the part before the dot when present.
    pub schema: Option<String>,
    pub name: String,
    pub alias: Option<String>,
    pub range: TextRange,
}

#[derive(Debug, Clone)]
pub struct JoinClause {
    pub kind: JoinKind,
    pub table: TableRef,
    pub on: Option<Expr>,
}

#[derive(Debug, Clone, Copy, PartialEq, Eq)]
pub enum JoinKind {
    Inner,
    Left,
    Right,
    Full,
    Cross,
}

#[derive(Debug)]
pub enum Expr {
    Column { qualifier: Option<String>, name: String, range: TextRange },
    Literal(String),
    BinaryOp { op: String, left: Box<Expr>, right: Box<Expr> },
    Call { name: String, args: Vec<Expr> },
    /// Anything not modelled individually -- stringified upstream AST.
    Other(String),
    /// Flat container of sub-expressions, for clauses without a
    /// structured AST yet whose column references rules still need.
    List(Vec<Expr>),
}

#[derive(Debug, Clone, Default)]
pub struct InsertStmt {
    pub table: TableRef,
    pub columns: Vec<String>,
}

#[derive(Debug, Clone, Default)]
pub struct UpdateStmt {
    pub table: TableRef,
    pub assignments: Vec<(String, Expr)>,
    pub where_clause: Option<Expr>,
    /// Tables of an `UPDATE ... FROM <list>` clause.
    pub from_tables: Vec<TableRef>,
}

#[derive(Debug, Clone, Default)]
pub struct DeleteStmt {
    pub table: TableRef,
    pub where_clause: Option<Expr>,
    /// Tables of a `DELETE ... USING <list>` clause.
    pub using_tables: Vec<TableRef>,
}

#[derive(Debug, Clone, Default)]
pub struct CreateTableStmt {
    pub table: TableRef,
    pub if_not_exists: bool,
    pub columns: Vec<ColumnDef>,
}

#[derive(Debug, Clone)]
pub struct ColumnDef {
    pub name: String,
    /// The column's SQL type as written, e.g. `text[]`.
    pub sql_type: String,
    pub nullable: bool,
    pub default: Option<String>,
    pub range: TextRange,
}

#[derive(Debug, Clone, Default)]
pub struct AlterTableStmt {
    pub table: TableRef,
}

#[derive(Debug, Clone, Default)]
pub struct DropTableStmt {
    pub tables: Vec<TableRef>,
    pub if_exists: bool,
}

/// One failed top-level statement: where it is and what went wrong.
#[derive(Debug, Clone)]
pub struct ParseError {
    pub range: TextRange,
    pub message: String,
}

/// The result of parsing a document: its statements and the errors of
/// the statements that failed to parse.
#[derive(Debug, Clone, Default)]
pub struct ParsedFile {
    pub statements: Vec<Statement>,
    pub errors: Vec<ParseError>,
}

/// What a table reference holds, as plain values.
pub struct TableRefV {
    pub schema: Option<Seq<char>>,
    pub name: Seq<char>,
    pub alias: Option<Seq<char>>,
    pub start: u32,
    pub end: u32,
}

impl View for TableRef {
    type V = TableRefV;

    open spec fn view(&self) -> TableRefV {
        TableRefV {
            schema: self.schema.deep_view(),
            name: self.name@,
            alias: self.alias.deep_view(),
            start: self.range.start_spec(),
            end: self.range.end_spec(),
        }
    }
}

/// A column reference as plain values: its qualifier and its name.
pub type ColV = (Option<Seq<char>>, Seq<char>);

/// `e` is the column reference `c`, without a source range.
pub open spec fn is_col(e: Expr, c: ColV) -> bool {
    &&& e matches Expr::Column { qualifier, name, range }
    &&& qualifier.deep_view() == c.0
    &&& name@ == c.1
    &&& range.start_spec() == 0
    &&& range.end_spec() == 0
}

/// `es` are the column references `cs`, in order.
pub open spec fn are_cols(es: Seq<Expr>, cs: Seq<ColV>) -> bool {
    &&& es.len() == cs.len()
    &&& forall|i: int| 0 <= i < cs.len() ==> is_col(#[trigger] es[i], cs[i])
}

/// `e` is the flat list of the column references `cs`.
pub open spec fn is_col_list(e: Expr, cs: Seq<ColV>) -> bool {
    e matches Expr::List(v) && are_cols(v@, cs)
}

/// The nameless table reference at the empty range.
pub open spec fn is_unnamed(t: TableRef) -> bool {
    &&& t.schema is None
    &&& t.name@ == Seq::<char>::empty()
    &&& t.alias is None
    &&& t.range.start_spec() == 0
    &&& t.range.end_spec() == 0
}

impl TableRef {
    /// The nameless table reference at the empty range.
    pub fn unnamed() -> (t: TableRef)
        ensures
            is_unnamed(t),
    {
        TableRef { schema: None, name: String::new(), alias: None, range: TextRange::empty() }
    }
}

impl Default for TableRef {
    fn default() -> (t: TableRef)
        ensures
            is_unnamed(t),
    {
        TableRef::unnamed()
    }
}

impl Default for TextRange {
    fn default() -> (r: TextRange)
        ensures
            r.start_spec() == 0,
            r.end_spec() == 0,
    {
        TextRange::empty()
    }
}

/// `b` holds the same expression as `a`: the same node kinds with the
/// same texts and ranges.
pub open spec fn same_expr(a: Expr, b: Expr) -> bool
    decreases a,
{
    match a {
        Expr::Column { qualifier, name, range } => {
            &&& b matches Expr::Column { qualifier: q, name: n, range: r }
            &&& q.deep_view() == qualifier.deep_view()
            &&& n@ == name@
            &&& r == range
        },
        Expr::Literal(t) => b matches Expr::Literal(u) && u@ == t@,
        Expr::BinaryOp { op, left, right } => {
            &&& b matches Expr::BinaryOp { op: o, left: l, right: r }
            &&& o@ == op@
            &&& same_expr(*left, *l)
            &&& same_expr(*right, *r)
        },
        Expr::Call { name, args } => {
            &&& b matches Expr::Call { name: n, args: xs }
            &&& n@ == name@
            &&& xs@.len() == args@.len()
            &&& forall|i: int| 0 <= i < args@.len() ==> same_expr(#[trigger] args@[i], xs@[i])
        },
        Expr::Other(t) => b matches Expr::Other(u) && u@ == t@,
        Expr::List(items) => {
            &&& b matches Expr::List(xs)
            &&& xs@.len() == items@.len()
            &&& forall|i: int| 0 <= i < items@.len() ==> same_expr(#[trigger] items@[i], xs@[i])
        },
    }
}

/// A copy of an expression, built node by node.
fn clone_expr(e: &Expr) -> (r: Expr)
    ensures
        same_expr(*e, r),
    decreases e, 1nat,
{
    match e {
        Expr::Column { qualifier, name, range } => Expr::Column {
            qualifier: match qualifier {
                Some(q) => Some(q.clone()),
                None => None,
            },
            name: name.clone(),
            range: *range,
        },
        Expr::Literal(t) => Expr::Literal(t.clone()),
        Expr::BinaryOp { op, left, right } => Expr::BinaryOp {
            op: op.clone(),
            left: Box::new(clone_expr(left)),
            right: Box::new(clone_expr(right)),
        },
        Expr::Call { name, args } => Expr::Call { name: name.clone(), args: clone_exprs(args, Ghost(*e)) },
        Expr::Other(t) => Expr::Other(t.clone()),
        Expr::List(items) => Expr::List(clone_exprs(items, Ghost(*e))),
    }
}

/// Copies of a list of expressions, in order.
fn clone_exprs(v: &Vec<Expr>, Ghost(parent): Ghost<Expr>) -> (r: Vec<Expr>)
    requires
        decreases_to!(parent => v),
    ensures
        r@.len() == v@.len(),
        forall|i: int| 0 <= i < v@.len() ==> same_expr(#[trigger] v@[i], r@[i]),
    decreases parent, 0nat,
{
    let mut r: Vec<Expr> = Vec::new();
    let mut i: usize = 0;
    while i < v.len()
        invariant
            0 <= i <= v@.len(),
            r@.len() == i,
            forall|k: int| 0 <= k < i ==> same_expr(#[trigger] v@[k], r@[k]),
            decreases_to!(parent => v),
        decreases v@.len() - i,
    {
        proof {
            assert(decreases_to!(v => v@));
            assert(decreases_to!(v@ => v@[i as int]));
        }
        r.push(clone_expr(&v[i]));
        i += 1;
    }
    r
}

impl Clone for Expr {
    fn clone(&self) -> (r: Self)
        ensures
            same_expr(*self, r),
    {
        clone_expr(self)
    }
}

} // verus!

//! The slice of the Postgres parse tree that the conversion into the
//! internal AST reads, as plain values.
//!
//! It follows the protobuf shape of the Postgres parser's output: a node
//! wrapper that may be empty (`Missing`), optional boxed children, and
//! enum-typed fields kept as their protobuf numbers.

use vstd::prelude::*;

verus! {

/// An alias clause: `AS name`.
#[derive(Debug)]
pub struct PgAlias {
    pub aliasname: String,
}

/// A table reference: `[schema.]relname [AS alias]` at byte `location`
/// (negative when unknown).
#[derive(Debug)]
pub struct PgRangeVar {
    pub schemaname: String,
    pub relname: String,
    pub alias: Option<PgAlias>,
    pub location: i32,
}

/// A type name: its dotted name parts and one entry per array dimension.
#[derive(Debug)]
pub struct PgTypeName {
    pub names: Vec<PgNode>,
    pub array_bounds: Vec<PgNode>,
}

/// `WITH` clause: its common table expressions.
#[derive(Debug)]
pub struct PgWithClause {
    pub ctes: Vec<PgNode>,
}

#[derive(Debug)]
pub struct PgSelectStmt {
    pub target_list: Vec<PgNode>,
    pub from_clause: Vec<PgNode>,
    pub where_clause: Option<Box<PgNode>>,
    pub with_clause: Option<PgWithClause>,
}

#[derive(Debug)]
pub struct PgJoinExpr {
    /// The protobuf `JoinType` number.
    pub jointype: i32,
    pub larg: Option<Box<PgNode>>,
    pub rarg: Option<Box<PgNode>>,
    pub quals: Option<Box<PgNode>>,
}

#[derive(Debug)]
pub struct PgColumnDef {
    pub colname: String,
    pub col_type: Option<PgTypeName>,
    pub constraints: Vec<PgNode>,
}

#[derive(Debug)]
pub struct PgResTarget {
    pub name: String,
    pub val: Option<Box<PgNode>>,
}

/// A parse-tree node.
#[derive(Debug)]
pub enum PgNode {
    /// A node wrapper that holds no node.
    Missing,
    /// A node of a kind the conversion does not read.
    Other,
    String { sval: String },
    AStar,
    ColumnRef { fields: Vec<PgNode>, location: i32 },
    AExpr { lexpr: Option<Box<PgNode>>, rexpr: Option<Box<PgNode>> },
    BoolExpr { args: Vec<PgNode> },
    FuncCall { args: Vec<PgNode> },
    List { items: Vec<PgNode> },
    SubLink { testexpr: Option<Box<PgNode>>, subselect: Option<Box<PgNode>> },
    ResTarget(PgResTarget),
    NullTest { arg: Option<Box<PgNode>> },
    CaseExpr { args: Vec<PgNode>, defresult: Option<Box<PgNode>> },
    CaseWhen { expr: Option<Box<PgNode>>, result: Option<Box<PgNode>> },
    TypeCast { arg: Option<Box<PgNode>> },
    CoalesceExpr { args: Vec<PgNode> },
    MinMaxExpr { args: Vec<PgNode> },
    BooleanTest { arg: Option<Box<PgNode>> },
    RowExpr { args: Vec<PgNode> },
    AArrayExpr { elements: Vec<PgNode> },
    CollateClause { arg: Option<Box<PgNode>> },
    AIndirection { arg: Option<Box<PgNode>> },
    SelectStmt(Box<PgSelectStmt>),
    RangeVar(PgRangeVar),
    JoinExpr(Box<PgJoinExpr>),
    RangeFunction { alias: Option<PgAlias> },
    RangeSubselect { alias: Option<PgAlias> },
    CommonTableExpr { ctename: String },
    CreateStmt { relation: Option<PgRangeVar>, table_elts: Vec<PgNode>, if_not_exists: bool },
    ColumnDef(PgColumnDef),
    /// A column or table constraint: its protobuf `ConstrType` number and
    /// the cooked default expression text.
    Constraint { contype: i32, cooked_expr: String },
    InsertStmt { relation: Option<PgRangeVar>, cols: Vec<PgNode> },
    UpdateStmt {
        relation: Option<PgRangeVar>,
        target_list: Vec<PgNode>,
        from_clause: Vec<PgNode>,
        where_clause: Option<Box<PgNode>>,
    },
    DeleteStmt {
        relation: Option<PgRangeVar>,
        using_clause: Vec<PgNode>,
        where_clause: Option<Box<PgNode>>,
    },
    AlterTableStmt { relation: Option<PgRangeVar> },
    /// A `DROP`: what it drops (the protobuf `ObjectType` number, 42 for
    /// tables), its objects, and whether it is `IF EXISTS`.
    DropStmt { remove_type: i32, objects: Vec<PgNode>, missing_ok: bool },
}

/// The node held by an optional child, when it is there and not empty.
pub open spec fn present(o: Option<Box<PgNode>>) -> Option<PgNode> {
    match o {
        Some(b) => if *b is Missing { None } else { Some(*b) },
        None => None,
    }
}

/// The node held by an optional child, when it is there and not empty.
pub fn present_ref(o: &Option<Box<PgNode>>) -> (r: Option<&PgNode>)
    ensures
        match r {
            Some(n) => present(*o) == Some(*n),
            None => present(*o) is None,
        },
{
    match o {
        Some(b) => match &**b {
            PgNode::Missing => None,
            n => Some(n),
        },
        None => None,
    }
}

} // verus!

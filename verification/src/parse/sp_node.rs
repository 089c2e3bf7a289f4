//! The slice of sqlparser's statement tree that the conversion into the
//! internal AST reads, as plain values. Texts that the conversion keeps
//! verbatim (an unmodelled statement, expression or type) are held as
//! their rendered SQL.

use vstd::prelude::*;

verus! {

/// An expression: a bare or compound identifier (its identifier
/// values), or anything else as its SQL text.
#[derive(Debug)]
pub enum SpExpr {
    Identifier(String),
    CompoundIdentifier(Vec<String>),
    Other(String),
}

/// A table source in FROM: a named table (its name parts, alias, and the
/// number of arguments when it is written as a call, `f(1, 10)`), a
/// table-valued function or `UNNEST` (its alias), a derived table (its
/// alias), or another kind.
#[derive(Debug)]
pub enum SpTableFactor {
    Table { name: Vec<String>, alias: Option<String>, args: Option<usize> },
    Function { alias: Option<String> },
    Derived { alias: Option<String> },
    Other,
}

/// A join constraint: `ON <expr>`, or another kind.
#[derive(Debug)]
pub enum SpJoinConstraint {
    On(SpExpr),
    Other,
}

/// A join operator: inner, left, right, full outer (each with its
/// constraint), cross, or another kind.
#[derive(Debug)]
pub enum SpJoinOperator {
    Inner(SpJoinConstraint),
    LeftOuter(SpJoinConstraint),
    RightOuter(SpJoinConstraint),
    FullOuter(SpJoinConstraint),
    CrossJoin,
    Other,
}

#[derive(Debug)]
pub struct SpJoin {
    pub relation: SpTableFactor,
    pub join_operator: SpJoinOperator,
}

#[derive(Debug)]
pub struct SpTableWithJoins {
    pub relation: SpTableFactor,
    pub joins: Vec<SpJoin>,
}

/// One item of a SELECT list; a qualified wildcard keeps its qualifier's
/// SQL text.
#[derive(Debug)]
pub enum SpSelectItem {
    UnnamedExpr(SpExpr),
    ExprWithAlias { expr: SpExpr, alias: String },
    QualifiedWildcard(String),
    Wildcard,
}

#[derive(Debug)]
pub struct SpSelect {
    pub projection: Vec<SpSelectItem>,
    pub from: Vec<SpTableWithJoins>,
    pub selection: Option<SpExpr>,
}

/// A query: the names of its CTEs (when it has a WITH clause), its body
/// when that is a plain SELECT, and its SQL text.
#[derive(Debug)]
pub struct SpQuery {
    pub ctes: Option<Vec<String>>,
    pub select: Option<SpSelect>,
    pub text: String,
}

/// A column option: `NOT NULL`, `UNIQUE` / `PRIMARY KEY`, `DEFAULT` with
/// its expression's SQL text, or another kind.
#[derive(Debug)]
pub enum SpColumnOption {
    NotNull,
    Unique { is_primary: bool },
    Default(String),
    Other,
}

/// A column definition, with its data type's SQL text.
#[derive(Debug)]
pub struct SpColumnDef {
    pub name: String,
    pub data_type: String,
    pub options: Vec<SpColumnOption>,
}

/// What a `DROP` drops: tables, or something else.
#[derive(Debug)]
pub enum SpObjectType {
    Table,
    Other,
}

/// A statement. Each assignment of an `UPDATE` is its target's and its
/// value's SQL text; a `DROP` carries what it drops, its names and its
/// SQL text; every other statement keeps its SQL text.
#[derive(Debug)]
pub enum SpStatement {
    Query(SpQuery),
    Insert { table_name: Vec<String>, columns: Vec<String> },
    Update {
        table: SpTableWithJoins,
        assignments: Vec<(String, String)>,
        from: Option<SpTableWithJoins>,
        selection: Option<String>,
    },
    Delete { from: Vec<SpTableWithJoins>, using: Option<Vec<SpTableWithJoins>>, selection: Option<String> },
    CreateTable { name: Vec<String>, if_not_exists: bool, columns: Vec<SpColumnDef> },
    AlterTable { name: Vec<String> },
    Drop { object_type: SpObjectType, if_exists: bool, names: Vec<Vec<String>>, text: String },
    Other(String),
}

} // verus!

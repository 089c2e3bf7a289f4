//! The call into sqlparser: parsing one chunk of SQL text under a
//! dialect, and reading the statement tree it gives back as plain values.

use vstd::prelude::*;
use sqlparser::ast as sp;
use sqlparser::ast::{ColumnDef as SqlColumnDef, Expr as SqlExpr, Statement as SqlStatement};
use sqlparser::dialect::{GenericDialect, MsSqlDialect, MySqlDialect, PostgreSqlDialect, SQLiteDialect};
use sqlparser::parser::Parser;
use sqlparser::keywords::Keyword;
use sqlparser::tokenizer::{Token, Tokenizer};
use crate::parse::sp_guard::{panic_pattern, SqlKw, SqlTok};
use crate::parse::sp_node::{
    SpColumnDef, SpColumnOption, SpExpr, SpJoin, SpJoinConstraint, SpJoinOperator, SpObjectType, SpQuery, SpSelect,
    SpSelectItem, SpStatement, SpTableFactor, SpTableWithJoins,
};

verus! {

/// sqlparser's `ast::Statement`, carried through opaquely.
#[verifier::external_type_specification]
#[verifier::external_body]
pub struct ExSqlStatement(SqlStatement);

/// sqlparser's `ast::Query`, carried through opaquely.
#[verifier::external_type_specification]
#[verifier::external_body]
pub struct ExSqlQuery(sp::Query);

/// sqlparser's `ast::Select`, carried through opaquely.
#[verifier::external_type_specification]
#[verifier::external_body]
pub struct ExSqlSelect(sp::Select);

/// sqlparser's `ast::SelectItem`, carried through opaquely.
#[verifier::external_type_specification]
#[verifier::external_body]
pub struct ExSqlSelectItem(sp::SelectItem);

/// sqlparser's `ast::TableWithJoins`, carried through opaquely.
#[verifier::external_type_specification]
#[verifier::external_body]
pub struct ExSqlTableWithJoins(sp::TableWithJoins);

/// sqlparser's `ast::Join`, carried through opaquely.
#[verifier::external_type_specification]
#[verifier::external_body]
pub struct ExSqlJoin(sp::Join);

/// sqlparser's `ast::JoinOperator`, carried through opaquely.
#[verifier::external_type_specification]
#[verifier::external_body]
pub struct ExSqlJoinOperator(sp::JoinOperator);

/// sqlparser's `ast::JoinConstraint`, carried through opaquely.
#[verifier::external_type_specification]
#[verifier::external_body]
pub struct ExSqlJoinConstraint(sp::JoinConstraint);

/// sqlparser's `ast::TableFactor`, carried through opaquely.
#[verifier::external_type_specification]
#[verifier::external_body]
pub struct ExSqlTableFactor(sp::TableFactor);

/// sqlparser's `ast::TableAlias`, carried through opaquely.
#[verifier::external_type_specification]
#[verifier::external_body]
pub struct ExSqlTableAlias(sp::TableAlias);

/// sqlparser's `ast::ObjectName`, carried through opaquely.
#[verifier::external_type_specification]
#[verifier::external_body]
pub struct ExSqlObjectName(sp::ObjectName);

/// sqlparser's `ast::Expr`, carried through opaquely.
#[verifier::external_type_specification]
#[verifier::external_body]
pub struct ExSqlExpr(SqlExpr);

/// sqlparser's `ast::ColumnDef`, carried through opaquely.
#[verifier::external_type_specification]
#[verifier::external_body]
pub struct ExSqlColumnDef(SqlColumnDef);

/// sqlparser's `ast::ColumnOptionDef`, carried through opaquely.
#[verifier::external_type_specification]
#[verifier::external_body]
pub struct ExSqlColumnOptionDef(sp::ColumnOptionDef);

/// sqlparser's `ast::Assignment`, carried through opaquely.
#[verifier::external_type_specification]
#[verifier::external_body]
pub struct ExSqlAssignment(sp::Assignment);

/// sqlparser's `ast::Delete`, carried through opaquely.
#[verifier::external_type_specification]
#[verifier::external_body]
pub struct ExSqlDelete(sp::Delete);

/// sqlparser's `ast::Insert`, carried through opaquely.
#[verifier::external_type_specification]
#[verifier::external_body]
pub struct ExSqlInsert(sp::Insert);

/// sqlparser's `ast::CreateTable`, carried through opaquely.
#[verifier::external_type_specification]
#[verifier::external_body]
pub struct ExSqlCreateTable(sp::CreateTable);

/// The identifier values of an object name.
#[verifier::external_body]
fn name_parts(n: &sp::ObjectName) -> Vec<String> {
    n.0.iter().map(|i| i.value.clone()).collect()
}

/// An expression as plain values (see `SpExpr`); other expressions as
/// sqlparser's rendering of them.
#[verifier::external_body]
fn expr_of(e: &SqlExpr) -> SpExpr {
    match e {
        SqlExpr::Identifier(i) => SpExpr::Identifier(i.value.clone()),
        SqlExpr::CompoundIdentifier(v) => SpExpr::CompoundIdentifier(v.iter().map(|i| i.value.clone()).collect()),
        other => SpExpr::Other(other.to_string()),
    }
}

/// The name of an optional table alias.
#[verifier::external_body]
fn alias_of(a: &Option<sp::TableAlias>) -> Option<String> {
    a.as_ref().map(|a| a.name.value.clone())
}

/// A table source as plain values (see `SpTableFactor`).
#[verifier::external_body]
fn table_factor_of(t: &sp::TableFactor) -> SpTableFactor {
    match t {
        sp::TableFactor::Table { name, alias, args, .. } => SpTableFactor::Table {
            name: name_parts(name),
            alias: alias_of(alias),
            args: args.as_ref().map(|a| a.args.len()),
        },
        sp::TableFactor::Function { alias, .. } => SpTableFactor::Function { alias: alias_of(alias) },
        sp::TableFactor::TableFunction { alias, .. } => SpTableFactor::Function { alias: alias_of(alias) },
        sp::TableFactor::UNNEST { alias, .. } => SpTableFactor::Function { alias: alias_of(alias) },
        sp::TableFactor::Derived { alias, .. } => SpTableFactor::Derived { alias: alias_of(alias) },
        _ => SpTableFactor::Other,
    }
}

/// A join constraint as plain values (see `SpJoinConstraint`).
#[verifier::external_body]
fn constraint_of(c: &sp::JoinConstraint) -> SpJoinConstraint {
    match c {
        sp::JoinConstraint::On(e) => SpJoinConstraint::On(expr_of(e)),
        _ => SpJoinConstraint::Other,
    }
}

/// A join operator as plain values (see `SpJoinOperator`).
#[verifier::external_body]
fn join_operator_of(o: &sp::JoinOperator) -> SpJoinOperator {
    match o {
        sp::JoinOperator::Inner(c) => SpJoinOperator::Inner(constraint_of(c)),
        sp::JoinOperator::LeftOuter(c) => SpJoinOperator::LeftOuter(constraint_of(c)),
        sp::JoinOperator::RightOuter(c) => SpJoinOperator::RightOuter(constraint_of(c)),
        sp::JoinOperator::FullOuter(c) => SpJoinOperator::FullOuter(constraint_of(c)),
        sp::JoinOperator::CrossJoin => SpJoinOperator::CrossJoin,
        _ => SpJoinOperator::Other,
    }
}

/// A join as plain values (see `SpJoin`).
#[verifier::external_body]
fn join_of(j: &sp::Join) -> SpJoin {
    SpJoin { relation: table_factor_of(&j.relation), join_operator: join_operator_of(&j.join_operator) }
}

/// A FROM item with its joins as plain values.
#[verifier::external_body]
fn table_with_joins_of(t: &sp::TableWithJoins) -> SpTableWithJoins {
    SpTableWithJoins { relation: table_factor_of(&t.relation), joins: t.joins.iter().map(join_of).collect() }
}

/// A SELECT list item as plain values (see `SpSelectItem`); a qualified
/// wildcard's qualifier as sqlparser renders it.
#[verifier::external_body]
fn select_item_of(p: &sp::SelectItem) -> SpSelectItem {
    match p {
        sp::SelectItem::UnnamedExpr(e) => SpSelectItem::UnnamedExpr(expr_of(e)),
        sp::SelectItem::ExprWithAlias { expr, alias } => SpSelectItem::ExprWithAlias { expr: expr_of(expr), alias: alias.value.clone() },
        sp::SelectItem::QualifiedWildcard(name, _) => SpSelectItem::QualifiedWildcard(name.to_string()),
        sp::SelectItem::Wildcard(_) => SpSelectItem::Wildcard,
    }
}

/// A SELECT as plain values (see `SpSelect`).
#[verifier::external_body]
fn select_of(s: &sp::Select) -> SpSelect {
    SpSelect {
        projection: s.projection.iter().map(select_item_of).collect(),
        from: s.from.iter().map(table_with_joins_of).collect(),
        selection: s.selection.as_ref().map(expr_of),
    }
}

/// A query as plain values (see `SpQuery`); its text as sqlparser
/// renders the query.
#[verifier::external_body]
fn query_of(q: &sp::Query) -> SpQuery {
    let ctes = q.with.as_ref().map(|w| w.cte_tables.iter().map(|c| c.alias.name.value.clone()).collect());
    let select = match q.body.as_ref() {
        sp::SetExpr::Select(s) => Some(select_of(s)),
        _ => None,
    };
    SpQuery { ctes, select, text: q.to_string() }
}

/// A column option as plain values (see `SpColumnOption`); a default's
/// expression as sqlparser renders it.
#[verifier::external_body]
fn column_option_of(o: &sp::ColumnOptionDef) -> SpColumnOption {
    match &o.option {
        sp::ColumnOption::NotNull => SpColumnOption::NotNull,
        sp::ColumnOption::Unique { is_primary, .. } => SpColumnOption::Unique { is_primary: *is_primary },
        sp::ColumnOption::Default(e) => SpColumnOption::Default(e.to_string()),
        _ => SpColumnOption::Other,
    }
}

/// A column definition as plain values (see `SpColumnDef`); its type as
/// sqlparser renders it.
#[verifier::external_body]
fn column_def_of(c: &SqlColumnDef) -> SpColumnDef {
    SpColumnDef {
        name: c.name.value.clone(),
        data_type: c.data_type.to_string(),
        options: c.options.iter().map(column_option_of).collect(),
    }
}

/// An `UPDATE` as plain values; assignments and WHERE as sqlparser
/// renders them.
#[verifier::external_body]
fn update_of(
    table: &sp::TableWithJoins,
    assignments: &Vec<sp::Assignment>,
    from: &Option<sp::TableWithJoins>,
    selection: &Option<SqlExpr>,
) -> SpStatement {
    SpStatement::Update {
        table: table_with_joins_of(table),
        assignments: assignments.iter().map(|a| (a.target.to_string(), a.value.to_string())).collect(),
        from: from.as_ref().map(table_with_joins_of),
        selection: selection.as_ref().map(|e| e.to_string()),
    }
}

/// A `DELETE` as plain values; WHERE as sqlparser renders it.
#[verifier::external_body]
fn delete_of(d: &sp::Delete) -> SpStatement {
    let from = match &d.from {
        sp::FromTable::WithFromKeyword(v) => v,
        sp::FromTable::WithoutKeyword(v) => v,
    };
    SpStatement::Delete {
        from: from.iter().map(table_with_joins_of).collect(),
        using: d.using.as_ref().map(|v| v.iter().map(table_with_joins_of).collect()),
        selection: d.selection.as_ref().map(|e| e.to_string()),
    }
}

/// An `INSERT` as plain values: its table name and column names.
#[verifier::external_body]
fn insert_of(i: &sp::Insert) -> SpStatement {
    SpStatement::Insert {
        table_name: name_parts(&i.table_name),
        columns: i.columns.iter().map(|c| c.value.clone()).collect(),
    }
}

/// A `CREATE TABLE` as plain values.
#[verifier::external_body]
fn create_table_of(c: &sp::CreateTable) -> SpStatement {
    SpStatement::CreateTable {
        name: name_parts(&c.name),
        if_not_exists: c.if_not_exists,
        columns: c.columns.iter().map(column_def_of).collect(),
    }
}

/// The schema statements as plain values (see `SpStatement`); other
/// statements as sqlparser renders them.
#[verifier::external_body]
fn ddl_of(s: &SqlStatement) -> SpStatement {
    match s {
        SqlStatement::CreateTable(c) => create_table_of(c),
        SqlStatement::AlterTable { name, .. } => SpStatement::AlterTable { name: name_parts(name) },
        SqlStatement::Drop { object_type, if_exists, names, .. } => SpStatement::Drop {
            object_type: match object_type {
                sp::ObjectType::Table => SpObjectType::Table,
                _ => SpObjectType::Other,
            },
            if_exists: *if_exists,
            names: names.iter().map(name_parts).collect(),
            text: s.to_string(),
        },
        other => SpStatement::Other(other.to_string()),
    }
}

/// A statement as plain values (see `SpStatement`).
#[verifier::external_body]
fn statement_of(s: &SqlStatement) -> SpStatement {
    match s {
        SqlStatement::Query(q) => SpStatement::Query(query_of(q)),
        SqlStatement::Insert(i) => insert_of(i),
        SqlStatement::Update { table, assignments, from, selection, .. } => update_of(table, assignments, from, selection),
        SqlStatement::Delete(d) => delete_of(d),
        other => ddl_of(other),
    }
}

/// sqlparser's dialects that the backend parses with, one per dialect
/// object of `sqlparser::dialect`.
#[derive(Debug, Clone, Copy, PartialEq, Eq, Structural)]
pub enum SqlpDialect {
    PostgreSql,
    MySql,
    SQLite,
    MsSql,
    Generic,
}

/// sqlparser's `keywords::Keyword`.
#[verifier::external_type_specification]
#[verifier::external_body]
pub struct ExSqlKeyword(Keyword);

/// sqlparser's `tokenizer::Token`, carried through opaquely.
#[verifier::external_type_specification]
#[verifier::external_body]
pub struct ExSqlToken(Token);

/// The keywords the guard reads, one arm per keyword of sqlparser.
#[verifier::external_body]
fn kw_of(k: Keyword) -> SqlKw {
    match k {
        Keyword::NoKeyword => SqlKw::NoKeyword,
        Keyword::DIV => SqlKw::Div,
        Keyword::GRANTED => SqlKw::Granted,
        Keyword::BY => SqlKw::By,
        Keyword::RELAY => SqlKw::Relay,
        Keyword::LOGS => SqlKw::Logs,
        Keyword::FOR => SqlKw::For,
        Keyword::CHANNEL => SqlKw::Channel,
        Keyword::AND => SqlKw::And,
        Keyword::OR => SqlKw::Or,
        Keyword::XOR => SqlKw::Xor,
        other => stop_kw_of(other),
    }
}

/// The clause keywords that end an expression, one arm per keyword.
#[verifier::external_body]
fn stop_kw_of(k: Keyword) -> SqlKw {
    match k {
        Keyword::AS => SqlKw::Stop,
        Keyword::FROM => SqlKw::Stop,
        Keyword::WHERE => SqlKw::Stop,
        Keyword::GROUP => SqlKw::Stop,
        Keyword::ORDER => SqlKw::Stop,
        Keyword::HAVING => SqlKw::Stop,
        Keyword::LIMIT => SqlKw::Stop,
        Keyword::THEN => SqlKw::Stop,
        Keyword::ELSE => SqlKw::Stop,
        Keyword::END => SqlKw::Stop,
        Keyword::WHEN => SqlKw::Stop,
        Keyword::UNION => SqlKw::Stop,
        _ => SqlKw::Other,
    }
}

/// A token as the guard reads it, one arm per token kind.
#[verifier::external_body]
fn tok_of(t: &Token) -> SqlTok {
    match t {
        Token::Whitespace(_) => SqlTok::Space,
        Token::Word(w) => SqlTok::Word { kw: kw_of(w.keyword), quote: w.quote_style },
        Token::Number(..) => SqlTok::Number,
        Token::SingleQuotedString(_) => SqlTok::SingleQuoted,
        Token::DoubleQuotedString(_) => SqlTok::DoubleQuoted,
        other => punct_of(other),
    }
}

/// Punctuation tokens, one arm per token kind.
#[verifier::external_body]
fn punct_of(t: &Token) -> SqlTok {
    match t {
        Token::Comma => SqlTok::Comma,
        Token::Period => SqlTok::Period,
        Token::LParen => SqlTok::LParen,
        Token::RParen => SqlTok::RParen,
        Token::SemiColon => SqlTok::SemiColon,
        Token::Plus => SqlTok::Plus,
        Token::Minus => SqlTok::Minus,
        other => op_of(other),
    }
}

/// Operator tokens, one arm per token kind.
#[verifier::external_body]
fn op_of(t: &Token) -> SqlTok {
    match t {
        Token::Mul => SqlTok::Mul,
        Token::Div => SqlTok::Slash,
        Token::Mod => SqlTok::Mod,
        Token::Eq => SqlTok::Cmp,
        Token::Neq => SqlTok::Cmp,
        Token::Lt => SqlTok::Cmp,
        Token::Gt => SqlTok::Cmp,
        Token::LtEq => SqlTok::Cmp,
        Token::GtEq => SqlTok::Cmp,
        _ => SqlTok::Other,
    }
}

/// The tokens sqlparser's tokenizer (`Tokenizer::tokenize`) makes of
/// `chunk` under the dialect, read as `SqlTok`s; `None` when it fails.
pub uninterp spec fn sql_lex(dialect: SqlpDialect, chunk: Seq<char>) -> Option<Seq<SqlTok>>;

/// Whether `Parser::parse_sql` panics on `chunk` under the dialect
/// instead of returning. (A stack overflow is no panic: it ends the
/// process, and whether it comes depends on the thread's stack.)
pub uninterp spec fn sql_panics(dialect: SqlpDialect, chunk: Seq<char>) -> bool;

/// Tokenizes a chunk with sqlparser's tokenizer (`Tokenizer::tokenize`),
/// as `Parser::parse_sql` does first. Its contract names the tokens
/// (`sql_lex`) and claims one fact of sqlparser 0.51: `parse_sql` does
/// not panic on a chunk whose tokens show no `panic_pattern`, nor on a
/// chunk the tokenizer refuses (it then fails before parsing). The fact rests on
/// the source: `parse_sql` panics only where it unwraps the identifier
/// after `GRANTED BY` (parser/mod.rs:10328, :10456), the object name after
/// `RELAY LOGS FOR CHANNEL` (:593), and the right operand of MySQL's `DIV`
/// (dialect/mysql.rs:71). The first two read tokens without nesting; for
/// `DIV`, an operand of the shape `chain_end` accepts is parsed without
/// error, and the parser opens a nesting level (parse_statement,
/// parse_query, parse_subexpr) only after reading a token since the
/// enclosing level opened, past the first two, so an operand ending
/// before token 49 stays within its 50 levels.
#[verifier::external_body]
pub(crate) fn lex_sql(dialect: SqlpDialect, chunk: &str) -> (r: Option<Vec<SqlTok>>)
    ensures
        match r {
            Some(v) => sql_lex(dialect, chunk@) == Some(v@) && (!panic_pattern(dialect, v@) ==> !sql_panics(
                dialect,
                chunk@,
            )),
            None => sql_lex(dialect, chunk@) is None && !sql_panics(dialect, chunk@),
        },
{
    let tokens = match dialect {
        SqlpDialect::PostgreSql => Tokenizer::new(&PostgreSqlDialect {}, chunk).tokenize(),
        SqlpDialect::MySql => Tokenizer::new(&MySqlDialect {}, chunk).tokenize(),
        SqlpDialect::SQLite => Tokenizer::new(&SQLiteDialect {}, chunk).tokenize(),
        SqlpDialect::MsSql => Tokenizer::new(&MsSqlDialect {}, chunk).tokenize(),
        SqlpDialect::Generic => Tokenizer::new(&GenericDialect {}, chunk).tokenize(),
    };
    tokens.ok().map(|ts| ts.iter().map(tok_of).collect())
}

/// What `sqlparser::parser::Parser::parse_sql` gives back for `chunk`
/// under the dialect: the statements read as plain values (see
/// `SpStatement`), or the text of the parser's error.
pub uninterp spec fn sql_parse(dialect: SqlpDialect, chunk: Seq<char>) -> Result<Seq<SpStatement>, Seq<char>>;

/// Parses one chunk of SQL with sqlparser (`Parser::parse_sql`) under the
/// dialect object of the same name. Its contract only names the result:
/// the statements, or the error's text, are `sql_parse` of the dialect
/// and the chunk. The precondition leaves out the chunks on which
/// sqlparser panics (`sql_panics`; see `lex_sql` for where it does).
/// Left unsaid: some of sqlparser's recursion has no depth limit (nested
/// type brackets, parser/mod.rs:7722), so a chunk that nests them
/// thousands deep can overflow the stack; where that starts depends on
/// the thread's stack size, and the precondition does not speak of it.
#[verifier::external_body]
pub(crate) fn parse_sql(dialect: SqlpDialect, chunk: &str) -> (r: Result<Vec<SpStatement>, String>)
    requires
        !sql_panics(dialect, chunk@),
    ensures
        match r {
            Ok(v) => sql_parse(dialect, chunk@) == Ok::<Seq<SpStatement>, Seq<char>>(v@),
            Err(e) => sql_parse(dialect, chunk@) == Err::<Seq<SpStatement>, Seq<char>>(e@),
        },
{
    let parsed = match dialect {
        SqlpDialect::PostgreSql => Parser::parse_sql(&PostgreSqlDialect {}, chunk),
        SqlpDialect::MySql => Parser::parse_sql(&MySqlDialect {}, chunk),
        SqlpDialect::SQLite => Parser::parse_sql(&SQLiteDialect {}, chunk),
        SqlpDialect::MsSql => Parser::parse_sql(&MsSqlDialect {}, chunk),
        SqlpDialect::Generic => Parser::parse_sql(&GenericDialect {}, chunk),
    };
    parsed.map(|v| v.iter().map(statement_of).collect()).map_err(|e| e.to_string())
}

} // verus!

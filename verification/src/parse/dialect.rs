//! SQL dialect selector.

use vstd::prelude::*;

verus! {

/// SQL dialect to parse against. Defaults to `Postgres`, the primary target.
#[derive(Debug, Clone, Copy, PartialEq, Eq)]
pub enum Dialect {
    Postgres,
    MySql,
    SQLite,
    /// Microsoft SQL Server / Sybase / T-SQL.
    MsSql,
    Generic,
}

impl Default for Dialect {
    fn default() -> (d: Dialect)
        ensures
            d == Dialect::Postgres,
    {
        Dialect::Postgres
    }
}

} // verus!

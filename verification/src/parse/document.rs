//! Parsing a whole SQL document: the backend is picked by dialect.

use vstd::prelude::*;
use crate::parse::ast::ParsedFile;
use crate::parse::dialect::Dialect;
use crate::parse::pg_agree::{files_agree, law_postgres_results_agree};
use crate::parse::pg_node::PgNode;
use crate::parse::pg_parse::{doc_errors, doc_fits, doc_slots, file_matches};
use crate::parse::range::TextRange;
use crate::parse::sp_agree::law_sqlparser_results_agree;
use crate::parse::sp_call::sql_panics;
use crate::parse::sp_parse::{
    answers_for, checked_answers, dialect_of, parses_without_panic, refused_answers, sp_doc_errors, sp_doc_slots,
    sp_file_matches,
};

verus! {

/// The Postgres parser's trees are at hand and Postgres is the dialect:
/// the Postgres backend answers.
pub open spec fn uses_pg(dialect: Dialect, pg_trees: Option<&Vec<Result<Vec<PgNode>, String>>>) -> bool {
    dialect == Dialect::Postgres && pg_trees is Some
}

/// What `parse` gives for a document: the Postgres backend's result (see
/// `pg_parse::parse`) when `uses_pg`, else sqlparser's under the dialect
/// (see `sp_parse::parse`).
pub open spec fn parse_result(
    chunks: Seq<(String, TextRange)>,
    dialect: Dialect,
    pg_trees: Option<&Vec<Result<Vec<PgNode>, String>>>,
    pf: ParsedFile,
) -> bool {
    &&& uses_pg(dialect, pg_trees) ==> file_matches(
        pf,
        doc_slots(chunks, pg_trees->0@),
        doc_errors(chunks, pg_trees->0@),
    )
    &&& !uses_pg(dialect, pg_trees) ==> sp_file_matches(
        pf,
        sp_doc_slots(chunks, answers_for(chunks, dialect)),
        sp_doc_errors(chunks, answers_for(chunks, dialect)),
    )
}

/// Parses a whole SQL document, given as its chunks (each chunk's text
/// and its range in the document), collecting the errors of chunks that
/// fail to parse into the result.
///
/// Postgres goes through the Postgres parser when it is available, and
/// then `pg_trees` holds its answer for each chunk (see
/// `pg_parse::parse`); without it (`pg_trees` is `None`) Postgres goes
/// through sqlparser's PostgreSQL dialect. Every other dialect goes
/// through sqlparser with the matching dialect (see `sp_parse::parse`),
/// and `pg_trees` is not read. The chunks sqlparser panics on are left
/// out; `parse_checked` takes any document.
pub fn parse(
    chunks: &Vec<(String, TextRange)>,
    dialect: Dialect,
    pg_trees: Option<&Vec<Result<Vec<PgNode>, String>>>,
) -> (pf: ParsedFile)
    requires
        uses_pg(dialect, pg_trees) ==> chunks@.len() == pg_trees->0@.len() && doc_fits(chunks@, pg_trees->0@),
        !uses_pg(dialect, pg_trees) ==> parses_without_panic(chunks@, dialect),
    ensures
        parse_result(chunks@, dialect, pg_trees, pf),
{
    match (dialect, pg_trees) {
        (Dialect::Postgres, Some(trees)) => crate::parse::pg_parse::parse(chunks, trees, dialect),
        _ => crate::parse::sp_parse::parse(chunks, dialect),
    }
}

/// Parses a whole SQL document like `parse`, except that on the sqlparser
/// path the chunks marked in `refused` are not handed to sqlparser and get
/// the error `UNSAFE_CHUNK` (see `sp_parse::parse_refusing`).
pub fn parse_refusing(
    chunks: &Vec<(String, TextRange)>,
    dialect: Dialect,
    pg_trees: Option<&Vec<Result<Vec<PgNode>, String>>>,
    refused: &Vec<bool>,
) -> (pf: ParsedFile)
    requires
        uses_pg(dialect, pg_trees) ==> chunks@.len() == pg_trees->0@.len() && doc_fits(chunks@, pg_trees->0@),
        !uses_pg(dialect, pg_trees) ==> refused@.len() == chunks@.len() && forall|i: int|
            0 <= i < chunks@.len() && !refused@[i] ==> !#[trigger] sql_panics(dialect_of(dialect), chunks@[i].0@),
    ensures
        uses_pg(dialect, pg_trees) ==> file_matches(
            pf,
            doc_slots(chunks@, pg_trees->0@),
            doc_errors(chunks@, pg_trees->0@),
        ),
        !uses_pg(dialect, pg_trees) ==> sp_file_matches(
            pf,
            sp_doc_slots(chunks@, refused_answers(chunks@, dialect, refused@)),
            sp_doc_errors(chunks@, refused_answers(chunks@, dialect, refused@)),
        ),
{
    match (dialect, pg_trees) {
        (Dialect::Postgres, Some(trees)) => crate::parse::pg_parse::parse(chunks, trees, dialect),
        _ => crate::parse::sp_parse::parse_refusing(chunks, dialect, refused),
    }
}

/// Parses a whole SQL document like `parse`, and takes any document: on
/// the sqlparser path a chunk the guard flags (see `sp_parse::flagged`)
/// is not handed to sqlparser and gets the error `UNSAFE_CHUNK`.
pub fn parse_checked(
    chunks: &Vec<(String, TextRange)>,
    dialect: Dialect,
    pg_trees: Option<&Vec<Result<Vec<PgNode>, String>>>,
) -> (pf: ParsedFile)
    requires
        uses_pg(dialect, pg_trees) ==> chunks@.len() == pg_trees->0@.len() && doc_fits(chunks@, pg_trees->0@),
    ensures
        uses_pg(dialect, pg_trees) ==> file_matches(
            pf,
            doc_slots(chunks@, pg_trees->0@),
            doc_errors(chunks@, pg_trees->0@),
        ),
        !uses_pg(dialect, pg_trees) ==> sp_file_matches(
            pf,
            sp_doc_slots(chunks@, checked_answers(chunks@, dialect)),
            sp_doc_errors(chunks@, checked_answers(chunks@, dialect)),
        ),
{
    match (dialect, pg_trees) {
        (Dialect::Postgres, Some(trees)) => crate::parse::pg_parse::parse(chunks, trees, dialect),
        _ => crate::parse::sp_parse::parse_checked(chunks, dialect),
    }
}

/// Backend dispatch: what `parse` gives for a document agrees field by
/// field (see `pg_agree::files_agree`) with what the chosen backend gives
/// for the same chunks: the Postgres backend (`pg_parse::parse`, on the
/// Postgres parser's trees) for Postgres when those trees are at hand, and
/// sqlparser under the dialect (`sp_parse::parse`) for every other dialect
/// and for Postgres without them. On the Postgres path the dialect is not
/// read, so two dialects give agreeing results.
pub proof fn law_parse_is_the_chosen_backend(
    chunks: Seq<(String, TextRange)>,
    dialect: Dialect,
    pg_trees: Option<&Vec<Result<Vec<PgNode>, String>>>,
    pf: ParsedFile,
    backend: ParsedFile,
)
    requires
        parse_result(chunks, dialect, pg_trees, pf),
        uses_pg(dialect, pg_trees) ==> file_matches(
            backend,
            doc_slots(chunks, pg_trees->0@),
            doc_errors(chunks, pg_trees->0@),
        ),
        !uses_pg(dialect, pg_trees) ==> sp_file_matches(
            backend,
            sp_doc_slots(chunks, answers_for(chunks, dialect)),
            sp_doc_errors(chunks, answers_for(chunks, dialect)),
        ),
    ensures
        files_agree(pf, backend),
{
    if uses_pg(dialect, pg_trees) {
        law_postgres_results_agree(chunks, pg_trees->0@, pf, backend);
    } else {
        law_sqlparser_results_agree(chunks, answers_for(chunks, dialect), pf, backend);
    }
}

} // verus!

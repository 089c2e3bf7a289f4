//! The sqlparser backend: parses each chunk of a document on its own,
//! so that one bad statement does not poison the rest, and maps the
//! statements into the internal AST.

use vstd::prelude::*;
use crate::parse::ast::{ParseError, ParsedFile, Statement, StatementKind};
use crate::parse::dialect::Dialect;
use crate::parse::pg_parse::is_error;
use crate::parse::range::TextRange;
use crate::parse::sp_call::{lex_sql, parse_sql, sql_lex, sql_panics, sql_parse, SqlpDialect};
use crate::parse::sp_convert::{is_sp_stmt, statement};
use crate::parse::sp_guard::{panic_pattern, panic_pattern_exec};
use crate::parse::sp_node::SpStatement;

verus! {

/// One statement of a parsed document as plain values: its byte range,
/// the sqlparser statement it converts (none for an `Unknown`
/// statement) and the text of its chunk.
pub struct SpSlot {
    pub start: u32,
    pub end: u32,
    pub stmt: Option<SpStatement>,
    pub text: Seq<char>,
}

/// The parser's answer for one chunk, as plain values.
pub open spec fn answer(r: Result<Vec<SpStatement>, String>) -> Result<Seq<SpStatement>, Seq<char>> {
    match r {
        Ok(v) => Ok(v@),
        Err(e) => Err(e@),
    }
}

/// The statements of one chunk: one per statement parsed, or an
/// `Unknown` statement with the chunk's text when parsing failed.
pub open spec fn sp_chunk_slots(text: Seq<char>, start: u32, end: u32, r: Result<Seq<SpStatement>, Seq<char>>) -> Seq<
    SpSlot,
> {
    match r {
        Ok(v) => v.map_values(|s: SpStatement| SpSlot { start, end, stmt: Some(s), text }),
        Err(_) => seq![SpSlot { start, end, stmt: None, text }],
    }
}

/// The error of one chunk: its range and the parser's message.
pub open spec fn sp_chunk_errors(start: u32, end: u32, r: Result<Seq<SpStatement>, Seq<char>>) -> Seq<
    (u32, u32, Seq<char>),
> {
    match r {
        Ok(_) => Seq::<(u32, u32, Seq<char>)>::empty(),
        Err(m) => seq![(start, end, m)],
    }
}

/// The statements of a document's chunks given the parser's answers.
pub open spec fn sp_doc_slots(
    chunks: Seq<(String, TextRange)>,
    answers: Seq<Result<Seq<SpStatement>, Seq<char>>>,
) -> Seq<SpSlot>
    decreases chunks.len(),
{
    if chunks.len() == 0 || answers.len() != chunks.len() {
        Seq::<SpSlot>::empty()
    } else {
        sp_doc_slots(chunks.drop_last(), answers.drop_last()) + sp_chunk_slots(
            chunks.last().0@,
            chunks.last().1.start_spec(),
            chunks.last().1.end_spec(),
            answers.last(),
        )
    }
}

/// The errors of a document's chunks given the parser's answers.
pub open spec fn sp_doc_errors(
    chunks: Seq<(String, TextRange)>,
    answers: Seq<Result<Seq<SpStatement>, Seq<char>>>,
) -> Seq<(u32, u32, Seq<char>)>
    decreases chunks.len(),
{
    if chunks.len() == 0 || answers.len() != chunks.len() {
        Seq::<(u32, u32, Seq<char>)>::empty()
    } else {
        sp_doc_errors(chunks.drop_last(), answers.drop_last()) + sp_chunk_errors(
            chunks.last().1.start_spec(),
            chunks.last().1.end_spec(),
            answers.last(),
        )
    }
}

/// `st` is the statement `s`.
pub open spec fn is_sp_slot(st: Statement, s: SpSlot) -> bool {
    &&& st.range.start_spec() == s.start
    &&& st.range.end_spec() == s.end
    &&& match s.stmt {
        Some(x) => is_sp_stmt(st.kind, x),
        None => st.kind matches StatementKind::Unknown { text: t } && t@ == s.text,
    }
}

/// `pf` holds the statements `slots` and the errors `errs`, in order.
pub open spec fn sp_file_matches(pf: ParsedFile, slots: Seq<SpSlot>, errs: Seq<(u32, u32, Seq<char>)>) -> bool {
    &&& pf.statements@.len() == slots.len()
    &&& forall|i: int| 0 <= i < slots.len() ==> is_sp_slot(#[trigger] pf.statements@[i], slots[i])
    &&& pf.errors@.len() == errs.len()
    &&& forall|i: int| 0 <= i < errs.len() ==> is_error(#[trigger] pf.errors@[i], errs[i])
}

/// The parsed document from sqlparser's answer for each of its chunks
/// (see `sp_doc_slots` and `sp_doc_errors`).
pub fn parse_answers(chunks: &Vec<(String, TextRange)>, answers: Vec<Result<Vec<SpStatement>, String>>) -> (pf:
    ParsedFile)
    requires
        chunks@.len() == answers@.len(),
    ensures
        sp_file_matches(
            pf,
            sp_doc_slots(chunks@, answers@.map_values(|r: Result<Vec<SpStatement>, String>| answer(r))),
            sp_doc_errors(chunks@, answers@.map_values(|r: Result<Vec<SpStatement>, String>| answer(r))),
        ),
{
    let ghost ans = answers@.map_values(|r: Result<Vec<SpStatement>, String>| answer(r));
    let mut statements: Vec<Statement> = Vec::new();
    let mut errors: Vec<ParseError> = Vec::new();
    let mut i: usize = 0;
    while i < chunks.len()
        invariant
            0 <= i <= chunks@.len() == answers@.len() == ans.len(),
            ans == answers@.map_values(|r: Result<Vec<SpStatement>, String>| answer(r)),
            sp_file_matches(
                ParsedFile { statements, errors },
                sp_doc_slots(chunks@.take(i as int), ans.take(i as int)),
                sp_doc_errors(chunks@.take(i as int), ans.take(i as int)),
            ),
        decreases chunks@.len() - i,
    {
        let ghost cs = chunks@.take(i + 1);
        let ghost rs = ans.take(i + 1);
        assert(cs.drop_last() =~= chunks@.take(i as int));
        assert(rs.drop_last() =~= ans.take(i as int));
        let ghost slots0 = sp_doc_slots(chunks@.take(i as int), ans.take(i as int));
        let ghost errs0 = sp_doc_errors(chunks@.take(i as int), ans.take(i as int));
        let chunk = &chunks[i].0;
        let range = chunks[i].1;
        let ghost start = range.start_spec();
        let ghost end = range.end_spec();
        let ghost cslots = sp_chunk_slots(chunk@, start, end, ans[i as int]);
        let ghost cerrs = sp_chunk_errors(start, end, ans[i as int]);
        let ghost st0 = statements@;
        let ghost er0 = errors@;
        match &answers[i] {
            Ok(parsed) => {
                let mut j: usize = 0;
                while j < parsed.len()
                    invariant
                        0 <= j <= parsed@.len(),
                        ans[i as int] == Ok::<Seq<SpStatement>, Seq<char>>(parsed@),
                        range == chunks@[i as int].1,
                        start == range.start_spec(),
                        end == range.end_spec(),
                        statements@.len() == st0.len() + j,
                        statements@.take(st0.len() as int) == st0,
                        errors@ == er0,
                        forall|k: int|
                            0 <= k < j ==> is_sp_slot(
                                #[trigger] statements@[st0.len() + k],
                                SpSlot { start, end, stmt: Some(parsed@[k]), text: chunk@ },
                            ),
                    decreases parsed@.len() - j,
                {
                    let kind = statement(&parsed[j], chunk.as_str());
                    let ghost stj = statements@;
                    statements.push(Statement { range, kind });
                    assert(statements@.take(st0.len() as int) =~= stj.take(st0.len() as int));
                    assert forall|k: int| 0 <= k < j + 1 implies is_sp_slot(
                        #[trigger] statements@[st0.len() + k],
                        SpSlot { start, end, stmt: Some(parsed@[k]), text: chunk@ },
                    ) by {
                        if k < j {
                            assert(statements@[st0.len() + k] == stj[st0.len() + k]);
                        }
                    }
                    j += 1;
                }
                assert(cerrs =~= Seq::<(u32, u32, Seq<char>)>::empty());
            },
            Err(e) => {
                errors.push(ParseError { range, message: e.clone() });
                statements.push(Statement { range, kind: StatementKind::Unknown { text: chunk.clone() } });
                assert(statements@.take(st0.len() as int) =~= st0);
            },
        }
        proof {
            let slots1 = sp_doc_slots(cs, rs);
            let errs1 = sp_doc_errors(cs, rs);
            assert(slots1 =~= slots0 + cslots);
            assert(errs1 =~= errs0 + cerrs);
            assert forall|k: int| 0 <= k < slots1.len() implies is_sp_slot(#[trigger] statements@[k], slots1[k]) by {
                if k < slots0.len() {
                    assert(statements@[k] == statements@.take(st0.len() as int)[k]);
                } else {
                    assert(statements@[k] == statements@[st0.len() + (k - st0.len())]);
                }
            }
            assert forall|k: int| 0 <= k < errs1.len() implies is_error(#[trigger] errors@[k], errs1[k]) by {
                if k < errs0.len() {
                    assert(errors@[k] == er0[k]);
                }
            }
        }
        i += 1;
    }
    assert(chunks@.take(i as int) =~= chunks@);
    assert(ans.take(i as int) =~= ans);
    ParsedFile { statements, errors }
}

/// The sqlparser dialect a dialect parses with: the one of the same name.
pub open spec fn dialect_of(d: Dialect) -> SqlpDialect {
    match d {
        Dialect::Postgres => SqlpDialect::PostgreSql,
        Dialect::MySql => SqlpDialect::MySql,
        Dialect::SQLite => SqlpDialect::SQLite,
        Dialect::MsSql => SqlpDialect::MsSql,
        Dialect::Generic => SqlpDialect::Generic,
    }
}

/// Maps the dialect onto the sqlparser dialect to parse with (see
/// `dialect_of`).
pub fn pick(d: Dialect) -> (r: SqlpDialect)
    ensures
        r == dialect_of(d),
{
    match d {
        Dialect::Postgres => SqlpDialect::PostgreSql,
        Dialect::MySql => SqlpDialect::MySql,
        Dialect::SQLite => SqlpDialect::SQLite,
        Dialect::MsSql => SqlpDialect::MsSql,
        Dialect::Generic => SqlpDialect::Generic,
    }
}

/// The error recorded for a chunk that is not handed to sqlparser because
/// sqlparser would, or could, panic on it.
pub const UNSAFE_CHUNK: &'static str = "sql parser error: statement not parsed: the parser cannot handle it safely";

/// The answers for the chunks of a document under a dialect: sqlparser's
/// for each chunk.
pub open spec fn answers_for(chunks: Seq<(String, TextRange)>, dialect: Dialect) -> Seq<
    Result<Seq<SpStatement>, Seq<char>>,
> {
    chunks.map_values(|c: (String, TextRange)| sql_parse(dialect_of(dialect), c.0@))
}

/// sqlparser returns on every chunk of the document.
pub open spec fn parses_without_panic(chunks: Seq<(String, TextRange)>, dialect: Dialect) -> bool {
    forall|i: int| 0 <= i < chunks.len() ==> !#[trigger] sql_panics(dialect_of(dialect), chunks[i].0@)
}

/// The answer for one chunk: `UNSAFE_CHUNK` when it is refused, else
/// sqlparser's.
pub open spec fn refused_answer(chunk: Seq<char>, dialect: Dialect, refused: bool) -> Result<
    Seq<SpStatement>,
    Seq<char>,
> {
    if refused {
        Err(UNSAFE_CHUNK@)
    } else {
        sql_parse(dialect_of(dialect), chunk)
    }
}

/// The answers for the chunks of a document, the refused ones getting
/// `UNSAFE_CHUNK`.
pub open spec fn refused_answers(chunks: Seq<(String, TextRange)>, dialect: Dialect, refused: Seq<bool>) -> Seq<
    Result<Seq<SpStatement>, Seq<char>>,
> {
    Seq::new(chunks.len(), |i: int| refused_answer(chunks[i].0@, dialect, refused[i]))
}

/// Parses each chunk of a document (its text and its range in the
/// document) with sqlparser under the dialect, except the chunks marked
/// in `refused`, which get the error `UNSAFE_CHUNK` and are not handed to
/// sqlparser; collects the statements and the errors (see
/// `parse_answers`). Every chunk that is handed over must be one that
/// sqlparser returns on.
pub fn parse_refusing(chunks: &Vec<(String, TextRange)>, dialect: Dialect, refused: &Vec<bool>) -> (pf: ParsedFile)
    requires
        refused@.len() == chunks@.len(),
        forall|i: int| 0 <= i < chunks@.len() && !refused@[i] ==> !#[trigger] sql_panics(dialect_of(dialect), chunks@[i].0@),
    ensures
        sp_file_matches(
            pf,
            sp_doc_slots(chunks@, refused_answers(chunks@, dialect, refused@)),
            sp_doc_errors(chunks@, refused_answers(chunks@, dialect, refused@)),
        ),
{
    let d = pick(dialect);
    let mut answers: Vec<Result<Vec<SpStatement>, String>> = Vec::new();
    let mut i: usize = 0;
    while i < chunks.len()
        invariant
            0 <= i <= chunks@.len() == refused@.len(),
            answers@.len() == i,
            forall|k: int|
                0 <= k < i ==> answer(#[trigger] answers@[k]) == refused_answer(chunks@[k].0@, dialect, refused@[k]),
            forall|k: int| 0 <= k < chunks@.len() && !refused@[k] ==> !#[trigger] sql_panics(dialect_of(dialect), chunks@[k].0@),
            d == dialect_of(dialect),
        decreases chunks@.len() - i,
    {
        let chunk = chunks[i].0.as_str();
        let r = if refused[i] {
            Err(UNSAFE_CHUNK.to_owned())
        } else {
            parse_sql(d, chunk)
        };
        answers.push(r);
        i += 1;
    }
    let ghost ans = answers@.map_values(|r: Result<Vec<SpStatement>, String>| answer(r));
    assert(ans =~= refused_answers(chunks@, dialect, refused@));
    parse_answers(chunks, answers)
}

/// Parses each chunk of a document (its text and its range in the
/// document) with sqlparser under the dialect, and collects the
/// statements and the errors (see `parse_answers`): each chunk is
/// answered with sqlparser's own answer. sqlparser panics on a few
/// chunks (see `sp_call::lex_sql`); those are left out.
pub fn parse(chunks: &Vec<(String, TextRange)>, dialect: Dialect) -> (pf: ParsedFile)
    requires
        parses_without_panic(chunks@, dialect),
    ensures
        sp_file_matches(
            pf,
            sp_doc_slots(chunks@, answers_for(chunks@, dialect)),
            sp_doc_errors(chunks@, answers_for(chunks@, dialect)),
        ),
{
    let mut refused: Vec<bool> = Vec::new();
    let mut i: usize = 0;
    while i < chunks.len()
        invariant
            0 <= i <= chunks@.len(),
            refused@.len() == i,
            forall|k: int| 0 <= k < i ==> !#[trigger] refused@[k],
        decreases chunks@.len() - i,
    {
        refused.push(false);
        i += 1;
    }
    let pf = parse_refusing(chunks, dialect, &refused);
    assert(refused_answers(chunks@, dialect, refused@) =~= answers_for(chunks@, dialect));
    pf
}

/// The guard's verdict on a chunk: sqlparser's tokens for it show a
/// pattern on which sqlparser could panic (see `sp_guard::panic_pattern`).
pub open spec fn flagged(chunk: Seq<char>, dialect: Dialect) -> bool {
    sql_lex(dialect_of(dialect), chunk) matches Some(ts) && panic_pattern(dialect_of(dialect), ts)
}

/// Whether the guard refuses the chunk (see `flagged`).
pub fn flagged_exec(chunk: &str, dialect: Dialect) -> (r: bool)
    ensures
        r == flagged(chunk@, dialect),
        !r ==> !sql_panics(dialect_of(dialect), chunk@),
{
    let d = pick(dialect);
    match lex_sql(d, chunk) {
        Some(ts) => panic_pattern_exec(d, &ts),
        None => false,
    }
}

/// Parses each chunk of a document like `parse`, except the chunks the
/// guard flags (see `flagged`): those are not handed to sqlparser and get
/// the error `UNSAFE_CHUNK`. Every other chunk is answered with
/// sqlparser's own answer.
pub fn parse_checked(chunks: &Vec<(String, TextRange)>, dialect: Dialect) -> (pf: ParsedFile)
    ensures
        sp_file_matches(
            pf,
            sp_doc_slots(chunks@, checked_answers(chunks@, dialect)),
            sp_doc_errors(chunks@, checked_answers(chunks@, dialect)),
        ),
{
    let refused = guard_verdicts(chunks, dialect);
    let pf = parse_refusing(chunks, dialect, &refused);
    assert(refused_answers(chunks@, dialect, refused@) =~= checked_answers(chunks@, dialect));
    pf
}

/// The guard's verdict on each chunk (see `flagged`).
pub fn guard_verdicts(chunks: &Vec<(String, TextRange)>, dialect: Dialect) -> (refused: Vec<bool>)
    ensures
        refused@.len() == chunks@.len(),
        forall|i: int| 0 <= i < chunks@.len() ==> #[trigger] refused@[i] == flagged(chunks@[i].0@, dialect),
        forall|i: int| 0 <= i < chunks@.len() && !refused@[i] ==> !#[trigger] sql_panics(dialect_of(dialect), chunks@[i].0@),
{
    let mut refused: Vec<bool> = Vec::new();
    let mut i: usize = 0;
    while i < chunks.len()
        invariant
            0 <= i <= chunks@.len(),
            refused@.len() == i,
            forall|k: int| 0 <= k < i ==> #[trigger] refused@[k] == flagged(chunks@[k].0@, dialect),
            forall|k: int| 0 <= k < i && !refused@[k] ==> !#[trigger] sql_panics(dialect_of(dialect), chunks@[k].0@),
        decreases chunks@.len() - i,
    {
        let f = flagged_exec(chunks[i].0.as_str(), dialect);
        refused.push(f);
        i += 1;
    }
    refused
}

/// The answers for the chunks of a document when the guard's verdicts
/// decide which are handed to sqlparser.
pub open spec fn checked_answers(chunks: Seq<(String, TextRange)>, dialect: Dialect) -> Seq<
    Result<Seq<SpStatement>, Seq<char>>,
> {
    chunks.map_values(|c: (String, TextRange)| refused_answer(c.0@, dialect, flagged(c.0@, dialect)))
}

/// One chunk cannot affect another: the statements and errors of a
/// document are those of any first chunks followed by those of the
/// remaining chunks, so a chunk that fails to parse contributes only its
/// own error and `Unknown` statement.
pub proof fn law_chunks_independent(
    chunks: Seq<(String, TextRange)>,
    answers: Seq<Result<Seq<SpStatement>, Seq<char>>>,
    k: int,
)
    requires
        chunks.len() == answers.len(),
        0 <= k <= chunks.len(),
    ensures
        sp_doc_slots(chunks, answers) == sp_doc_slots(chunks.take(k), answers.take(k)) + sp_doc_slots(
            chunks.skip(k),
            answers.skip(k),
        ),
        sp_doc_errors(chunks, answers) == sp_doc_errors(chunks.take(k), answers.take(k)) + sp_doc_errors(
            chunks.skip(k),
            answers.skip(k),
        ),
    decreases chunks.len(),
{
    if k == chunks.len() {
        assert(chunks.take(k) =~= chunks);
        assert(answers.take(k) =~= answers);
        assert(sp_doc_slots(chunks.skip(k), answers.skip(k)) =~= Seq::<SpSlot>::empty());
        assert(sp_doc_errors(chunks.skip(k), answers.skip(k)) =~= Seq::<(u32, u32, Seq<char>)>::empty());
        assert(sp_doc_slots(chunks, answers) + Seq::<SpSlot>::empty() =~= sp_doc_slots(chunks, answers));
        assert(sp_doc_errors(chunks, answers) + Seq::<(u32, u32, Seq<char>)>::empty() =~= sp_doc_errors(
            chunks,
            answers,
        ));
    } else {
        let c0 = chunks.drop_last();
        let a0 = answers.drop_last();
        law_chunks_independent(c0, a0, k);
        assert(c0.take(k) =~= chunks.take(k));
        assert(a0.take(k) =~= answers.take(k));
        assert(chunks.skip(k).drop_last() =~= c0.skip(k));
        assert(answers.skip(k).drop_last() =~= a0.skip(k));
        assert(chunks.skip(k).last() == chunks.last());
        assert(answers.skip(k).last() == answers.last());
        let last_slots = sp_chunk_slots(
            chunks.last().0@,
            chunks.last().1.start_spec(),
            chunks.last().1.end_spec(),
            answers.last(),
        );
        let last_errs = sp_chunk_errors(chunks.last().1.start_spec(), chunks.last().1.end_spec(), answers.last());
        assert(sp_doc_slots(chunks.take(k), answers.take(k)) + sp_doc_slots(c0.skip(k), a0.skip(k)) + last_slots
            =~= sp_doc_slots(chunks.take(k), answers.take(k)) + (sp_doc_slots(c0.skip(k), a0.skip(k)) + last_slots));
        assert(sp_doc_errors(chunks.take(k), answers.take(k)) + sp_doc_errors(c0.skip(k), a0.skip(k)) + last_errs
            =~= sp_doc_errors(chunks.take(k), answers.take(k)) + (sp_doc_errors(c0.skip(k), a0.skip(k))
            + last_errs));
    }
}

/// The number of chunks whose parse failed.
pub open spec fn failed_chunks(answers: Seq<Result<Seq<SpStatement>, Seq<char>>>) -> nat
    decreases answers.len(),
{
    if answers.len() == 0 {
        0
    } else {
        failed_chunks(answers.drop_last()) + if answers.last() is Err {
            1nat
        } else {
            0nat
        }
    }
}

/// Parsing always succeeds and collects one error per chunk that failed
/// to parse, each with that chunk's range.
pub proof fn law_one_error_per_failed_chunk(
    chunks: Seq<(String, TextRange)>,
    answers: Seq<Result<Seq<SpStatement>, Seq<char>>>,
)
    requires
        chunks.len() == answers.len(),
    ensures
        sp_doc_errors(chunks, answers).len() == failed_chunks(answers),
    decreases chunks.len(),
{
    if chunks.len() > 0 {
        law_one_error_per_failed_chunk(chunks.drop_last(), answers.drop_last());
    }
}

} // verus!

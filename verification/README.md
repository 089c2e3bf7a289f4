# dsl_sql

The core of a SQL language server, verified with Verus:

- `knowledge`: a catalogue of SQL keywords, data types and functions
  (`keywords()`, `types()`, `functions()`, `lookup`), each entry rendered
  as markdown for hover and completion popups (`render_markdown`, with
  paragraph wrapping by `wrap_paragraphs`).
- `parse`: the small AST that downstream features read, and two
  backends that fill it chunk by chunk:
  - Postgres parse trees (`pg_node`, as the Postgres parser emits them)
    converted by `pg_convert`, `pg_statement` and `pg_parse`, with
    every byte range moved from chunk to document offsets (`pg_fits`
    decides beforehand that the offsets fit a `u32`, `pg_agree` states
    when two results say the same thing);
  - sqlparser statements (`sp_call` makes the call, `sp_node` holds what
    it gives back) converted by `sp_convert` and `sp_parse`; sqlparser
    panics on a few inputs: `parse` answers every other chunk with
    sqlparser's own answer, and `sp_guard` reads sqlparser's own tokens
    for a pattern that covers every panicking input, so that
    `parse_checked` can take any document (refusing a few chunks that
    sqlparser would have parsed); `sp_agree` shows that the conversion
    fixes its result;
  - `document::parse` picks the backend by dialect (sqlparser's
    PostgreSQL dialect when no Postgres parse trees are at hand), and
    its result agrees field by field with the chosen backend's;
  - `plpgsql` lists the statements of a PL/pgSQL function body from the
    parser's JSON dump.
- `text`: character-level string helpers with their specifications.

`app/` holds what the verifier cannot see: the calls into libpg_query
(`pg_query`), the conversion of its parse trees and JSON dumps into the
library's plain values, and the error type with `Display` and `Serialize`.

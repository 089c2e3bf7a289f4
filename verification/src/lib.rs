//! SQL tooling core: a knowledge base of SQL keywords, types and
//! functions with markdown documentation, and the parser front end that
//! normalises parsed SQL into a small AST.

pub mod knowledge;
pub mod parse;
pub mod text;

pub use knowledge::entry::{Entry, Kind, PG_DOCS_BASE};
pub use knowledge::render::render_markdown;
pub use knowledge::table::Table;
pub use knowledge::wrap::wrap_paragraphs;
pub use knowledge::{functions, keywords, lookup, lookup_in, types};

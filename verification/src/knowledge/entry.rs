//! Shape of a single knowledge-base entry.

use vstd::prelude::*;
use vstd::string::StringExecFns;

verus! {

/// What an entry represents. Drives the completion item kind.
#[derive(Debug, Clone, Copy, PartialEq, Eq)]
pub enum Kind {
    Keyword,
    Type,
    Function,
}

/// One entry in the knowledge base.
///
/// `signature` is set only for functions; keywords and types have no
/// meaningful arity.
#[derive(Debug, Clone)]
pub struct Entry {
    /// Display label in canonical case (`"SELECT"`, `"now"`, `"UUID"`).
    pub label: &'static str,
    /// What this entry represents.
    pub kind: Kind,
    /// One-line semantic description.
    pub doc: &'static str,
    /// Formal signature, only for functions.
    pub signature: Option<&'static str>,
    /// Short SQL snippet showing canonical usage.
    pub example: &'static str,
    /// Link to the canonical Postgres documentation page.
    pub url: String,
}

/// An entry as plain values.
pub struct EntryV {
    pub label: Seq<char>,
    pub kind: Kind,
    pub doc: Seq<char>,
    pub signature: Option<Seq<char>>,
    pub example: Seq<char>,
    pub url: Seq<char>,
}

impl View for Entry {
    type V = EntryV;

    open spec fn view(&self) -> EntryV {
        EntryV {
            label: self.label@,
            kind: self.kind,
            doc: self.doc@,
            signature: match self.signature {
                Some(s) => Some(s@),
                None => None,
            },
            example: self.example@,
            url: self.url@,
        }
    }
}

/// A keyword entry whose docs page is `path` under the docs base.
pub open spec fn keyword_v(label: Seq<char>, doc: Seq<char>, example: Seq<char>, path: Seq<char>) -> EntryV {
    EntryV { label, kind: Kind::Keyword, doc, signature: None, example, url: PG_DOCS_BASE@ + path }
}

/// A data-type entry whose docs page is `path` under the docs base.
pub open spec fn data_type_v(label: Seq<char>, doc: Seq<char>, example: Seq<char>, path: Seq<char>) -> EntryV {
    EntryV { label, kind: Kind::Type, doc, signature: None, example, url: PG_DOCS_BASE@ + path }
}

/// A data-type entry documented at `url`.
pub open spec fn data_type_at_v(label: Seq<char>, doc: Seq<char>, example: Seq<char>, url: Seq<char>) -> EntryV {
    EntryV { label, kind: Kind::Type, doc, signature: None, example, url }
}

/// A function entry whose docs page is `path` under the docs base.
pub open spec fn function_v(
    label: Seq<char>,
    signature: Seq<char>,
    doc: Seq<char>,
    example: Seq<char>,
    path: Seq<char>,
) -> EntryV {
    EntryV { label, kind: Kind::Function, doc, signature: Some(signature), example, url: PG_DOCS_BASE@ + path }
}

/// A function entry documented at `url`.
pub open spec fn function_at_v(
    label: Seq<char>,
    signature: Seq<char>,
    doc: Seq<char>,
    example: Seq<char>,
    url: Seq<char>,
) -> EntryV {
    EntryV { label, kind: Kind::Function, doc, signature: Some(signature), example, url }
}

/// Canonical Postgres docs base URL: the URL of every entry documented in
/// the Postgres docs starts with it (entries documented elsewhere, such as
/// extensions, carry their own absolute URL).
pub const PG_DOCS_BASE: &'static str = "https://www.postgresql.org/docs/current/";

/// The Postgres docs URL of a page, from its path relative to the docs base.
pub fn pg(path: &'static str) -> (r: String)
    ensures
        r@ == PG_DOCS_BASE@ + path@,
        r@.len() > 0,
{
    proof {
        reveal_strlit("https://www.postgresql.org/docs/current/");
    }
    let base = String::from_str(PG_DOCS_BASE);
    base.concat(path)
}

/// An entry that belongs in a table of entries of kind `k`: it has that
/// kind, a signature exactly when it is a function, and a docs URL.
pub open spec fn entry_fits(e: Entry, k: Kind) -> bool {
    &&& e.kind == k
    &&& (e.signature is Some <==> k == Kind::Function)
    &&& e.url@.len() > 0
}

/// A keyword entry.
pub fn keyword(label: &'static str, doc: &'static str, example: &'static str, path: &'static str) -> (e: Entry)
    ensures
        e.label == label,
        e.kind == Kind::Keyword,
        e.doc == doc,
        e.signature is None,
        e.example == example,
        e.url@ == PG_DOCS_BASE@ + path@,
        entry_fits(e, Kind::Keyword),
        e@ == keyword_v(label@, doc@, example@, path@),
{
    Entry { label, kind: Kind::Keyword, doc, signature: None, example, url: pg(path) }
}

/// A data-type entry.
pub fn data_type(label: &'static str, doc: &'static str, example: &'static str, path: &'static str) -> (e: Entry)
    ensures
        e.label == label,
        e.kind == Kind::Type,
        e.doc == doc,
        e.signature is None,
        e.example == example,
        e.url@ == PG_DOCS_BASE@ + path@,
        entry_fits(e, Kind::Type),
        e@ == data_type_v(label@, doc@, example@, path@),
{
    Entry { label, kind: Kind::Type, doc, signature: None, example, url: pg(path) }
}

/// A data-type entry documented outside the Postgres docs, at `url`.
pub fn data_type_at(label: &'static str, doc: &'static str, example: &'static str, url: &'static str) -> (e: Entry)
    requires
        url@.len() > 0,
    ensures
        e.label == label,
        e.kind == Kind::Type,
        e.doc == doc,
        e.signature is None,
        e.example == example,
        e.url@ == url@,
        entry_fits(e, Kind::Type),
        e@ == data_type_at_v(label@, doc@, example@, url@),
{
    Entry { label, kind: Kind::Type, doc, signature: None, example, url: String::from_str(url) }
}

/// A function entry, with its signature.
pub fn function(
    label: &'static str,
    signature: &'static str,
    doc: &'static str,
    example: &'static str,
    path: &'static str,
) -> (e: Entry)
    ensures
        e.label == label,
        e.kind == Kind::Function,
        e.doc == doc,
        e.signature == Some(signature),
        e.example == example,
        e.url@ == PG_DOCS_BASE@ + path@,
        entry_fits(e, Kind::Function),
        e@ == function_v(label@, signature@, doc@, example@, path@),
{
    Entry { label, kind: Kind::Function, doc, signature: Some(signature), example, url: pg(path) }
}

/// A function entry documented outside the Postgres docs, at `url`.
pub fn function_at(
    label: &'static str,
    signature: &'static str,
    doc: &'static str,
    example: &'static str,
    url: &'static str,
) -> (e: Entry)
    requires
        url@.len() > 0,
    ensures
        e.label == label,
        e.kind == Kind::Function,
        e.doc == doc,
        e.signature == Some(signature),
        e.example == example,
        e.url@ == url@,
        entry_fits(e, Kind::Function),
        e@ == function_at_v(label@, signature@, doc@, example@, url@),
{
    Entry { label, kind: Kind::Function, doc, signature: Some(signature), example, url: String::from_str(url) }
}

} // verus!

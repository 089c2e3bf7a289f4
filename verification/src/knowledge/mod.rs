//! Knowledge base of SQL keywords, types and functions, and the
//! markdown rendering of its entries.

pub mod entry;
pub mod render;
pub mod table;
pub mod tables;
pub mod wrap;

use vstd::prelude::*;
use crate::knowledge::entry::{entry_fits, Entry, EntryV, Kind};
use crate::knowledge::tables::functions::function_map;
use crate::knowledge::tables::keywords::keyword_map;
use crate::knowledge::tables::types::type_map;
use crate::knowledge::table::Table;

verus! {

/// The keyword table.
pub fn keywords() -> (t: Table)
    ensures
        t.wf(),
        t.table_kind() == Kind::Keyword,
        t.contents() == keyword_map(),
{
    tables::keywords::build()
}

/// The function table.
pub fn functions() -> (t: Table)
    ensures
        t.wf(),
        t.table_kind() == Kind::Function,
        t.contents() == function_map(),
{
    tables::functions::build()
}

/// The data type table.
pub fn types() -> (t: Table)
    ensures
        t.wf(),
        t.table_kind() == Kind::Type,
        t.contents() == type_map(),
{
    tables::types::build()
}

/// Which of the three tables holds the entry for `label`: keywords first,
/// then functions, then types. `None` when none of them has it.
pub open spec fn lookup_order<V>(
    keywords: Map<Seq<char>, V>,
    functions: Map<Seq<char>, V>,
    types: Map<Seq<char>, V>,
    label: Seq<char>,
) -> Option<V> {
    if keywords.contains_key(label) {
        Some(keywords[label])
    } else if functions.contains_key(label) {
        Some(functions[label])
    } else if types.contains_key(label) {
        Some(types[label])
    } else {
        None
    }
}

/// The entry for `label` in the given keyword, function and type tables,
/// searched in that order.
pub fn lookup_in<'a>(keywords: &'a Table, functions: &'a Table, types: &'a Table, label: &str) -> (r: Option<&'a Entry>)
    requires
        keywords.wf(),
        functions.wf(),
        types.wf(),
    ensures
        r == match lookup_order(keywords@, functions@, types@, label@) {
            Some(e) => Some(&e),
            None => None::<&Entry>,
        },
{
    match keywords.get(label) {
        Some(e) => Some(e),
        None => match functions.get(label) {
            Some(e) => Some(e),
            None => types.get(label),
        },
    }
}

/// The entry for `label` in the catalogue: a keyword, else a function,
/// else a type.
pub open spec fn catalogue_entry(label: Seq<char>) -> Option<EntryV> {
    lookup_order(keyword_map(), function_map(), type_map(), label)
}

/// Whether `t` has an entry for `label`, and which, in terms of its contents.
proof fn lemma_contents(t: &Table, label: Seq<char>)
    ensures
        t@.contains_key(label) == t.contents().contains_key(label),
        t@.contains_key(label) ==> t.contents()[label] == t@[label]@,
{
}

/// The entry for `label`: a keyword, else a function, else a type (see
/// `catalogue_entry`).
pub fn lookup(label: &str) -> (r: Option<Entry>)
    ensures
        match r {
            Some(e) => catalogue_entry(label@) == Some(e@),
            None => catalogue_entry(label@) is None,
        },
        r matches Some(e) ==> e.label@ == label@ && entry_fits(e, e.kind),
{
    let k = keywords();
    proof {
        lemma_contents(&k, label@);
        table::law_table_entries_fit(&k);
    }
    if k.contains_key(label) {
        return k.into_entry(label);
    }
    let f = functions();
    proof {
        lemma_contents(&f, label@);
        table::law_table_entries_fit(&f);
    }
    if f.contains_key(label) {
        return f.into_entry(label);
    }
    let t = types();
    proof {
        lemma_contents(&t, label@);
        table::law_table_entries_fit(&t);
    }
    t.into_entry(label)
}

} // verus!

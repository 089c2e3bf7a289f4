//! Markdown rendering of knowledge-base entries, as shown in completion
//! documentation popovers and hover.
//!
//! Sections, separated by blank lines:
//!
//!   header  : `# {label}` and an italic kind tag (Keyword / Function / Type)
//!   block   : the signature (functions only) in a fenced sql block
//!   body    : the description, word-wrapped at 72 columns
//!   example : a fenced sql block with a worked example
//!   footer  : a link to the documentation page

use vstd::prelude::*;
use crate::knowledge::entry::{Entry, Kind};
use crate::knowledge::wrap::{fits_or_one_word, law_wrap_paragraphs_one_paragraph_line, wrap_paragraphs, wrap_paragraphs_spec};
use crate::text::{
    append_chars, append_str, chars_of, is_ws, lemma_trim_end_prefix, split_lines, string_from_chars, trim_end,
    trim_end_chars, views,
};

verus! {

/// The name of a kind, as shown in the kind tag.
pub open spec fn kind_name(k: Kind) -> Seq<char> {
    match k {
        Kind::Keyword => "Keyword"@,
        Kind::Function => "Function"@,
        Kind::Type => "Type"@,
    }
}

/// The sections of the rendering of `e`, in order: the header, then the
/// signature, description, example and docs link where present.
pub open spec fn markdown_sections(e: Entry) -> Seq<Seq<char>> {
    let header = seq!["# "@ + e.label@ + "\n\n_"@ + kind_name(e.kind) + "_"@];
    let signature = match e.signature {
        Some(sig) => seq!["```sql\n"@ + trim_end(sig@) + "\n```"@],
        None => Seq::<Seq<char>>::empty(),
    };
    let body = if e.doc@.len() > 0 {
        seq![wrap_paragraphs_spec(trim_end(e.doc@), 72)]
    } else {
        Seq::<Seq<char>>::empty()
    };
    let example = if e.example@.len() > 0 {
        seq!["**Example**\n\n```sql\n"@ + trim_end(e.example@) + "\n```"@]
    } else {
        Seq::<Seq<char>>::empty()
    };
    let link = if e.url@.len() > 0 {
        seq!["[Postgres docs]("@ + e.url@ + ")"@]
    } else {
        Seq::<Seq<char>>::empty()
    };
    header + signature + body + example + link
}

/// The pieces joined with `sep` between them.
pub open spec fn join_with(ls: Seq<Seq<char>>, sep: Seq<char>) -> Seq<char>
    decreases ls.len(),
{
    if ls.len() == 0 {
        Seq::<char>::empty()
    } else if ls.len() == 1 {
        ls[0]
    } else {
        join_with(ls.drop_last(), sep) + sep + ls.last()
    }
}

/// The markdown of `e`: its sections separated by blank lines, then a newline.
pub open spec fn markdown(e: Entry) -> Seq<char> {
    join_with(markdown_sections(e), "\n\n"@).push('\n')
}

/// The name of a kind, as shown in the kind tag.
pub fn kind_label(kind: Kind) -> (r: &'static str)
    ensures
        r@ == kind_name(kind),
{
    match kind {
        Kind::Keyword => "Keyword",
        Kind::Function => "Function",
        Kind::Type => "Type",
    }
}

fn trim_end_str(s: &str) -> (r: Vec<char>)
    ensures
        r@ == trim_end(s@),
{
    let v = chars_of(s);
    trim_end_chars(&v)
}

fn push_section(sections: &mut Vec<Vec<char>>, section: Vec<char>)
    ensures
        views(final(sections)@) == views(old(sections)@).push(section@),
{
    let ghost old_views = views(sections@);
    sections.push(section);
    assert(views(sections@) =~= old_views.push(section@));
}

fn join_sections(sections: &Vec<Vec<char>>) -> (r: Vec<char>)
    ensures
        r@ == join_with(views(sections@), "\n\n"@),
{
    let mut out: Vec<char> = Vec::new();
    let mut i: usize = 0;
    while i < sections.len()
        invariant
            0 <= i <= sections.len(),
            out@ == join_with(views(sections@).take(i as int), "\n\n"@),
        decreases sections.len() - i,
    {
        proof {
            assert(views(sections@).take(i + 1).drop_last() =~= views(sections@).take(i as int));
        }
        if i > 0 {
            append_str(&mut out, "\n\n");
        }
        append_chars(&mut out, &sections[i]);
        proof {
            if i == 0 {
                assert(out@ =~= views(sections@).take(1)[0]);
            }
        }
        i += 1;
    }
    assert(views(sections@).take(sections.len() as int) =~= views(sections@));
    out
}

/// The markdown documentation of `entry`.
pub fn render_markdown(entry: &Entry) -> (r: String)
    ensures
        r@ == markdown(*entry),
{
    let mut sections: Vec<Vec<char>> = Vec::new();
    let ghost e = *entry;

    let mut header: Vec<char> = Vec::new();
    append_str(&mut header, "# ");
    append_str(&mut header, entry.label);
    append_str(&mut header, "\n\n_");
    append_str(&mut header, kind_label(entry.kind));
    append_str(&mut header, "_");
    push_section(&mut sections, header);
    let ghost s1 = views(sections@);
    assert(s1 =~= seq!["# "@ + e.label@ + "\n\n_"@ + kind_name(e.kind) + "_"@]);

    if let Some(sig) = entry.signature {
        let mut block: Vec<char> = Vec::new();
        append_str(&mut block, "```sql\n");
        let t = trim_end_str(sig);
        append_chars(&mut block, &t);
        append_str(&mut block, "\n```");
        push_section(&mut sections, block);
    }
    let ghost s2 = views(sections@);
    assert(s2 =~= s1 + match e.signature {
        Some(sig) => seq!["```sql\n"@ + trim_end(sig@) + "\n```"@],
        None => Seq::<Seq<char>>::empty(),
    });

    if !entry.doc.is_empty() {
        let t = trim_end_str(entry.doc);
        let ts = string_from_chars(&t);
        let wrapped = wrap_paragraphs(ts.as_str(), 72);
        let body = chars_of(wrapped.as_str());
        push_section(&mut sections, body);
    }
    let ghost s3 = views(sections@);
    assert(s3 =~= s2 + if e.doc@.len() > 0 {
        seq![wrap_paragraphs_spec(trim_end(e.doc@), 72)]
    } else {
        Seq::<Seq<char>>::empty()
    });

    if !entry.example.is_empty() {
        let mut block: Vec<char> = Vec::new();
        append_str(&mut block, "**Example**\n\n```sql\n");
        let t = trim_end_str(entry.example);
        append_chars(&mut block, &t);
        append_str(&mut block, "\n```");
        push_section(&mut sections, block);
    }
    let ghost s4 = views(sections@);
    assert(s4 =~= s3 + if e.example@.len() > 0 {
        seq!["**Example**\n\n```sql\n"@ + trim_end(e.example@) + "\n```"@]
    } else {
        Seq::<Seq<char>>::empty()
    });

    if !entry.url.as_str().is_empty() {
        let mut link: Vec<char> = Vec::new();
        append_str(&mut link, "[Postgres docs](");
        append_str(&mut link, entry.url.as_str());
        append_str(&mut link, ")");
        push_section(&mut sections, link);
    }
    assert(views(sections@) =~= markdown_sections(e));

    let mut out = join_sections(&sections);
    out.push('\n');
    string_from_chars(&out)
}


proof fn lemma_join_with_first(ls: Seq<Seq<char>>, sep: Seq<char>)
    requires
        ls.len() >= 1,
    ensures
        ls[0].is_prefix_of(join_with(ls, sep)),
    decreases ls.len(),
{
    if ls.len() > 1 {
        lemma_join_with_first(ls.drop_last(), sep);
        let j = join_with(ls.drop_last(), sep);
        assert(ls.drop_last()[0] == ls[0]);
        assert((j + sep + ls.last()).subrange(0, ls[0].len() as int) =~= j.subrange(0, ls[0].len() as int));
    }
}

/// Every rendering opens with the `# label` heading and the italic kind tag.
pub proof fn law_markdown_starts_with_header(e: Entry)
    ensures
        ("# "@ + e.label@ + "\n\n_"@ + kind_name(e.kind) + "_"@).is_prefix_of(markdown(e)),
{
    let ls = markdown_sections(e);
    assert(ls[0] == "# "@ + e.label@ + "\n\n_"@ + kind_name(e.kind) + "_"@);
    lemma_join_with_first(ls, "\n\n"@);
    let j = join_with(ls, "\n\n"@);
    assert(j.push('\n').subrange(0, ls[0].len() as int) =~= j.subrange(0, ls[0].len() as int));
}

/// An entry with a docs URL renders with the `[Postgres docs](url)` link
/// as its last line.
pub proof fn law_markdown_ends_with_docs_link(e: Entry)
    requires
        e.url@.len() > 0,
    ensures
        ("[Postgres docs]("@ + e.url@ + ")"@).push('\n').is_suffix_of(markdown(e)),
{
    let ls = markdown_sections(e);
    let link = "[Postgres docs]("@ + e.url@ + ")"@;
    assert(ls.last() == link);
    assert(ls.len() >= 2);
    let j = join_with(ls, "\n\n"@);
    assert(j == join_with(ls.drop_last(), "\n\n"@) + "\n\n"@ + link);
    let m = j.push('\n');
    assert(link.push('\n') =~= m.subrange(m.len() - link.len() - 1, m.len() as int));
}

/// A function's rendering holds its signature in a fenced sql block
/// right after the header.
pub proof fn law_markdown_shows_signature(e: Entry, sig: &'static str)
    requires
        e.signature == Some(sig),
    ensures
        markdown_sections(e)[1] == "```sql\n"@ + trim_end(sig@) + "\n```"@,
{
}

/// The description of an entry with one is shown word-wrapped at 72
/// columns: its section (after the header, and after the signature where
/// there is one) is the trimmed description re-flowed by
/// `wrap_paragraphs` at width 72.
pub proof fn law_markdown_wraps_description(e: Entry)
    requires
        e.doc@.len() > 0,
    ensures
        markdown_sections(e)[if e.signature is Some { 2int } else { 1int }] == wrap_paragraphs_spec(
            trim_end(e.doc@),
            72,
        ),
{
}

/// An entry with only a description renders as its header, a blank line,
/// the description word-wrapped at 72 columns, and a newline.
pub proof fn law_markdown_of_a_described_entry(e: Entry)
    requires
        e.doc@.len() > 0,
        e.signature is None,
        e.example@.len() == 0,
        e.url@.len() == 0,
    ensures
        markdown(e) == (("# "@ + e.label@ + "\n\n_"@ + kind_name(e.kind) + "_"@) + "\n\n"@ + wrap_paragraphs_spec(
            trim_end(e.doc@),
            72,
        )).push('\n'),
{
    let ls = markdown_sections(e);
    assert(ls.len() == 2);
    assert(ls.drop_last().len() == 1);
    assert(join_with(ls.drop_last(), "\n\n"@) == ls[0]);
    assert(join_with(ls, "\n\n"@) == ls[0] + "\n\n"@ + ls[1]);
}

/// A description of one paragraph line (no newline, starting with a
/// character that is neither whitespace nor a markdown marker nor a
/// backtick) is shown in lines of at most 72 columns, but for a single
/// word longer than that.
pub proof fn law_markdown_description_lines_fit(e: Entry)
    requires
        e.doc@.len() > 0,
        forall|j: int| 0 <= j < e.doc@.len() ==> e.doc@[j] != '\n',
        !is_ws(e.doc@[0]),
        e.doc@[0] != '|' && e.doc@[0] != '-' && e.doc@[0] != '*' && e.doc@[0] != '>' && e.doc@[0] != '`',
    ensures
        ({
            let body = markdown_sections(e)[if e.signature is Some { 2int } else { 1int }];
            forall|i: int| 0 <= i < split_lines(body).len() ==> fits_or_one_word(#[trigger] split_lines(body)[i], 72)
        }),
{
    let t = trim_end(e.doc@);
    lemma_trim_end_prefix(e.doc@);
    assert(t[0] == e.doc@[0]);
    assert forall|j: int| 0 <= j < t.len() implies t[j] != '\n' by {
        assert(t[j] == e.doc@[j]);
    }
    law_wrap_paragraphs_one_paragraph_line(t, 72);
}

} // verus!

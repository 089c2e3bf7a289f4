//! Greedy word-wrapping of documentation text.
//!
//! Each paragraph line is re-flowed at a column width; blank lines,
//! indented lines, markdown list/table/quote lines and the contents of
//! fenced code blocks are kept as they are.

use vstd::prelude::*;
use crate::text::{
    is_ws, lemma_split_lines_append, lemma_split_lines_newline, lemma_split_lines_nonempty,
    lemma_words_append_word, lemma_words_append_ws, lemma_words_are_words, no_ws, words_state,
    law_join_split_lines,
    append_chars, chars_of, is_blank, is_blank_chars, join_lines, split_lines, split_lines_chars,
    string_from_chars, trim_start, trim_start_chars, views, words, words_chars,
};

verus! {

/// Greedy layout of `ws` at `width` columns: the text produced so far
/// and the length of its last line. The first word always starts the
/// text; each later word joins the current line after one space when the
/// line stays within `width`, and otherwise starts a new line.
pub open spec fn wrap_fold(ws: Seq<Seq<char>>, width: nat) -> (Seq<char>, nat)
    decreases ws.len(),
{
    if ws.len() == 0 {
        (Seq::<char>::empty(), 0)
    } else if ws.len() == 1 {
        (ws[0], ws[0].len())
    } else {
        let (out, col) = wrap_fold(ws.drop_last(), width);
        let w = ws.last();
        if col + 1 + w.len() > width {
            (out.push('\n') + w, w.len())
        } else {
            (out.push(' ') + w, col + 1 + w.len())
        }
    }
}

/// One line re-flowed at `width` columns: its words, greedily laid out.
pub open spec fn wrap_one_spec(line: Seq<char>, width: nat) -> Seq<char> {
    wrap_fold(words(line), width).0
}

/// The line opens or closes a fenced code block: once its leading
/// whitespace is removed it starts with three backticks.
pub open spec fn is_fence(line: Seq<char>) -> bool {
    seq!['`', '`', '`'].is_prefix_of(trim_start(line))
}

/// A line that is never re-flowed: indented by four spaces or a tab, a
/// markdown table row, list item or quote, or a blank line.
pub open spec fn kept_verbatim(line: Seq<char>) -> bool {
    ||| seq![' ', ' ', ' ', ' '].is_prefix_of(line)
    ||| (line.len() > 0 && (line[0] == '\t' || line[0] == '|' || line[0] == '-' || line[0] == '*'
        || line[0] == '>'))
    ||| is_blank(line)
}

/// One line of the input and whether it stands inside a fenced block:
/// the line that is emitted, and whether the next line stands inside one.
pub open spec fn wrap_step(line: Seq<char>, in_fence: bool, width: nat) -> (Seq<char>, bool) {
    if is_fence(line) {
        (line, !in_fence)
    } else if in_fence || kept_verbatim(line) {
        (line, in_fence)
    } else {
        (wrap_one_spec(line, width), in_fence)
    }
}

/// The emitted lines for `ls`, and whether a fence is open after them.
pub open spec fn wrap_lines(ls: Seq<Seq<char>>, width: nat) -> (Seq<Seq<char>>, bool)
    decreases ls.len(),
{
    if ls.len() == 0 {
        (Seq::<Seq<char>>::empty(), false)
    } else {
        let (prev, in_fence) = wrap_lines(ls.drop_last(), width);
        let (line, next) = wrap_step(ls.last(), in_fence, width);
        (prev.push(line), next)
    }
}

/// `text` with each of its lines handled by `wrap_step`, joined by newlines.
pub open spec fn wrap_paragraphs_spec(text: Seq<char>, width: nat) -> Seq<char> {
    join_lines(wrap_lines(split_lines(text), width).0)
}

fn starts_with_fence(line: &Vec<char>) -> (r: bool)
    ensures
        r == is_fence(line@),
{
    let t = trim_start_chars(line);
    let r = t.len() >= 3 && t[0] == '`' && t[1] == '`' && t[2] == '`';
    assert(r == seq!['`', '`', '`'].is_prefix_of(t@)) by {
        if t.len() >= 3 {
            assert(t@.take(3) =~= seq![t@[0], t@[1], t@[2]]);
        }
    }
    r
}

fn is_kept_verbatim(line: &Vec<char>) -> (r: bool)
    ensures
        r == kept_verbatim(line@),
{
    let four = line.len() >= 4 && line[0] == ' ' && line[1] == ' ' && line[2] == ' ' && line[3] == ' ';
    assert(four == seq![' ', ' ', ' ', ' '].is_prefix_of(line@)) by {
        if line.len() >= 4 {
            assert(line@.take(4) =~= seq![line@[0], line@[1], line@[2], line@[3]]);
        }
    }
    let marker = line.len() > 0 && (line[0] == '\t' || line[0] == '|' || line[0] == '-'
        || line[0] == '*' || line[0] == '>');
    four || marker || is_blank_chars(line)
}

/// Greedy re-flow of one line at `width` columns.
pub fn wrap_one(line: &Vec<char>, width: usize) -> (r: Vec<char>)
    ensures
        r@ == wrap_one_spec(line@, width as nat),
{
    let ws = words_chars(line);
    let mut out: Vec<char> = Vec::new();
    let mut col: usize = 0;
    let mut k: usize = 0;
    while k < ws.len()
        invariant
            0 <= k <= ws.len(),
            views(ws@) == words(line@),
            (out@, col as nat) == wrap_fold(views(ws@).take(k as int), width as nat),
        decreases ws.len() - k,
    {
        let ghost done = views(ws@).take(k as int);
        let word = &ws[k];
        let w = word.len();
        proof {
            assert(views(ws@).take(k + 1).drop_last() =~= done);
            assert(views(ws@)[k as int] == word@);
        }
        if k == 0 {
            append_chars(&mut out, word);
            col = w;
            assert(out@ =~= views(ws@).take(1)[0]);
        } else if w > width || col >= width - w {
            out.push('\n');
            append_chars(&mut out, word);
            col = w;
        } else {
            out.push(' ');
            append_chars(&mut out, word);
            col = col + 1 + w;
        }
        k += 1;
    }
    assert(views(ws@).take(ws.len() as int) =~= views(ws@));
    out
}

/// Greedy word-wrap of each paragraph line of `text` at `width` columns.
/// Blank lines, indented lines, markdown table/list/quote lines and the
/// lines of fenced code blocks (delimited by lines starting with three
/// backticks) are kept unchanged.
pub fn wrap_paragraphs(text: &str, width: usize) -> (r: String)
    ensures
        r@ == wrap_paragraphs_spec(text@, width as nat),
{
    let chars = chars_of(text);
    let lines = split_lines_chars(&chars);
    let ghost src = split_lines(text@);
    let mut out: Vec<char> = Vec::new();
    let mut in_fence = false;
    let mut i: usize = 0;
    while i < lines.len()
        invariant
            0 <= i <= lines.len(),
            views(lines@) == src,
            out@ == join_lines(wrap_lines(src.take(i as int), width as nat).0),
            in_fence == wrap_lines(src.take(i as int), width as nat).1,
            wrap_lines(src.take(i as int), width as nat).0.len() == i,
        decreases lines.len() - i,
    {
        let ghost before = wrap_lines(src.take(i as int), width as nat).0;
        let line = &lines[i];
        proof {
            assert(src.take(i + 1).drop_last() =~= src.take(i as int));
            assert(src[i as int] == line@);
        }
        if i > 0 {
            out.push('\n');
        }
        if starts_with_fence(line) {
            in_fence = !in_fence;
            append_chars(&mut out, line);
        } else if in_fence || is_kept_verbatim(line) {
            append_chars(&mut out, line);
        } else {
            let wrapped = wrap_one(line, width);
            append_chars(&mut out, &wrapped);
        }
        proof {
            let after = wrap_lines(src.take(i + 1), width as nat).0;
            assert(after.drop_last() =~= before);
        }
        i += 1;
    }
    assert(src.take(lines.len() as int) =~= src);
    string_from_chars(&out)
}


/// Every element is a word: non-empty, without whitespace.
pub open spec fn all_words(ws: Seq<Seq<char>>) -> bool {
    forall|i: int| 0 <= i < ws.len() ==> (#[trigger] ws[i]).len() > 0 && no_ws(ws[i])
}

/// A line that fits in `width` columns, or that is a single word.
pub open spec fn fits_or_one_word(l: Seq<char>, width: nat) -> bool {
    l.len() <= width || no_ws(l)
}

proof fn lemma_no_newline(w: Seq<char>)
    requires
        no_ws(w),
    ensures
        forall|j: int| 0 <= j < w.len() ==> w[j] != '\n',
{
    assert(is_ws('\n'));
}

proof fn lemma_all_words_drop_last(ws: Seq<Seq<char>>)
    requires
        all_words(ws),
        ws.len() > 0,
    ensures
        all_words(ws.drop_last()),
        ws.last().len() > 0,
        no_ws(ws.last()),
{
    let d = ws.drop_last();
    assert forall|i: int| 0 <= i < d.len() implies (#[trigger] d[i]).len() > 0 && no_ws(d[i]) by {
        assert(d[i] == ws[i]);
    }
    assert(ws.last() == ws[ws.len() - 1]);
}

proof fn lemma_single_word(w: Seq<char>)
    requires
        w.len() > 0,
        no_ws(w),
    ensures
        words(w) == seq![w],
        words_state(w).1,
{
    lemma_words_append_word(Seq::<char>::empty(), w);
    assert(Seq::<char>::empty() + w =~= w);
    assert(Seq::<Seq<char>>::empty().push(w) =~= seq![w]);
}

/// The layout keeps the words it is given, in order.
proof fn lemma_wrap_fold_words(ws: Seq<Seq<char>>, width: nat)
    requires
        all_words(ws),
    ensures
        words_state(wrap_fold(ws, width).0) == (ws, ws.len() > 0),
    decreases ws.len(),
{
    if ws.len() == 1 {
        lemma_single_word(ws[0]);
        assert(seq![ws[0]] =~= ws);
    } else if ws.len() > 1 {
        lemma_all_words_drop_last(ws);
        lemma_wrap_fold_words(ws.drop_last(), width);
        let (out, col) = wrap_fold(ws.drop_last(), width);
        let w = ws.last();
        let sep = if col + 1 + w.len() > width { '\n' } else { ' ' };
        assert(is_ws(sep));
        lemma_words_append_ws(out, sep);
        lemma_words_append_word(out.push(sep), w);
        assert(ws.drop_last().push(w) =~= ws);
    }
}

/// Re-flowing a line keeps its words, in order: only the whitespace
/// between them changes.
pub proof fn law_wrap_one_keeps_words(line: Seq<char>, width: nat)
    ensures
        words(wrap_one_spec(line, width)) == words(line),
{
    lemma_words_are_words(line);
    lemma_wrap_fold_words(words(line), width);
}

/// The words `ws` with one space between each two.
pub open spec fn sp_join(ws: Seq<Seq<char>>) -> Seq<char>
    decreases ws.len(),
{
    if ws.len() == 0 {
        Seq::<char>::empty()
    } else if ws.len() == 1 {
        ws[0]
    } else {
        sp_join(ws.drop_last()).push(' ') + ws.last()
    }
}

/// The word starts with three backticks.
pub open spec fn starts_fence(w: Seq<char>) -> bool {
    seq!['`', '`', '`'].is_prefix_of(w)
}

proof fn lemma_wrap_fold_lines(ws: Seq<Seq<char>>, width: nat)
    requires
        all_words(ws),
    ensures
        ({
            let (out, col) = wrap_fold(ws, width);
            let ls = split_lines(out);
            &&& ls.len() >= 1
            &&& ls.last().len() == col
            &&& forall|i: int| 0 <= i < ls.len() ==> fits_or_one_word(#[trigger] ls[i], width)
            &&& ws.len() > 0 ==> forall|i: int| 0 <= i < ls.len() ==> (#[trigger] words(ls[i])).len() > 0
            &&& forall|i: int|
                0 <= i < ls.len() - 1 ==> (#[trigger] ls[i]).len() + 1 + words(ls[i + 1])[0].len() > width
            &&& ws.len() > 0 ==> forall|i: int| 0 <= i < ls.len() ==> #[trigger] sp_join(words(ls[i])) == ls[i]
            &&& (forall|j: int| 0 <= j < ws.len() ==> !starts_fence(#[trigger] ws[j])) ==> forall|i: int|
                0 <= i < ls.len() && words(ls[i]).len() > 0 ==> !starts_fence(#[trigger] words(ls[i])[0])
        }),
    decreases ws.len(),
{
    if ws.len() > 1 && (forall|j: int| 0 <= j < ws.len() ==> !starts_fence(#[trigger] ws[j])) {
        assert forall|j: int| 0 <= j < ws.drop_last().len() implies !starts_fence(#[trigger] ws.drop_last()[j]) by {
            assert(ws.drop_last()[j] == ws[j]);
        }
    }
    if ws.len() == 0 {
        assert(split_lines(Seq::<char>::empty()) =~= seq![Seq::<char>::empty()]);
    } else if ws.len() == 1 {
        let w = ws[0];
        lemma_no_newline(w);
        lemma_split_lines_append(Seq::<char>::empty(), w);
        assert(Seq::<char>::empty() + w =~= w);
        let ls = split_lines(w);
        assert(ls =~= seq![w]);
        lemma_single_word(w);
        assert(sp_join(seq![w]) == w);
    } else {
        lemma_all_words_drop_last(ws);
        lemma_wrap_fold_lines(ws.drop_last(), width);
        let (out, col) = wrap_fold(ws.drop_last(), width);
        let ls = split_lines(out);
        let w = ws.last();
        lemma_no_newline(w);
        lemma_single_word(w);
        if col + 1 + w.len() > width {
            lemma_split_lines_newline(out);
            lemma_split_lines_append(out.push('\n'), w);
            let nls = split_lines(out.push('\n') + w);
            assert(nls =~= ls.push(w));
            assert(sp_join(seq![w]) == w);
            assert(ws.last() == ws[ws.len() - 1]);
            assert forall|i: int| 0 <= i < nls.len() implies #[trigger] sp_join(words(nls[i])) == nls[i] by {
                if i < ls.len() {
                    assert(nls[i] == ls[i]);
                }
            }
            assert forall|i: int| 0 <= i < nls.len() - 1 implies (#[trigger] nls[i]).len() + 1 + words(
                nls[i + 1],
            )[0].len() > width by {
                if i == nls.len() - 2 {
                    assert(nls[i] == ls.last());
                    assert(words(nls[i + 1]) == seq![w]);
                } else {
                    assert(nls[i] == ls[i]);
                    assert(nls[i + 1] == ls[i + 1]);
                }
            }
            assert forall|i: int| 0 <= i < nls.len() implies fits_or_one_word(#[trigger] nls[i], width)
                && (#[trigger] words(nls[i])).len() > 0 by {
                if i < ls.len() {
                    assert(nls[i] == ls[i]);
                }
            }
        } else {
            let tail = seq![' '] + w;
            assert forall|j: int| 0 <= j < tail.len() implies tail[j] != '\n' by {
                if j > 0 {
                    assert(tail[j] == w[j - 1]);
                }
            }
            lemma_split_lines_append(out, tail);
            assert(out.push(' ') + w =~= out + tail);
            let last = ls.last();
            let nlast = last + tail;
            let nls = ls.update(ls.len() - 1, nlast);
            assert(split_lines(out.push(' ') + w) == nls);
            // the words of the extended last line: those of the old one, then `w`
            lemma_words_are_words(last);
            lemma_words_append_ws(last, ' ');
            lemma_words_append_word(last.push(' '), w);
            assert(last.push(' ') + w =~= nlast);
            assert(words(last).len() > 0) by {
                assert(ls[ls.len() - 1] == last);
            }
            assert(words(nlast)[0] == words(last)[0]);
            assert(words(nlast) == words(last).push(w));
            assert(words(last).push(w).drop_last() =~= words(last));
            assert(sp_join(words(last)) == last) by {
                assert(ls[ls.len() - 1] == last);
            }
            assert(sp_join(words(nlast)) == nlast) by {
                assert(last.push(' ') + w =~= nlast);
            }
            assert(ws.last() == ws[ws.len() - 1]);
            assert forall|i: int| 0 <= i < nls.len() implies #[trigger] sp_join(words(nls[i])) == nls[i] by {
                if i < ls.len() - 1 {
                    assert(nls[i] == ls[i]);
                }
            }
            assert forall|i: int| 0 <= i < nls.len() implies fits_or_one_word(#[trigger] nls[i], width)
                && (#[trigger] words(nls[i])).len() > 0 by {
                if i < ls.len() - 1 {
                    assert(nls[i] == ls[i]);
                } else {
                    assert(nlast.len() == col + 1 + w.len());
                }
            }
            assert forall|i: int| 0 <= i < nls.len() - 1 implies (#[trigger] nls[i]).len() + 1 + words(
                nls[i + 1],
            )[0].len() > width by {
                assert(nls[i] == ls[i]);
                if i + 1 == ls.len() - 1 {
                    assert(ls[i + 1] == last);
                }
            }
        }
    }
}

/// Every line that re-flowing produces fits in `width` columns, unless it
/// is a single word longer than that.
pub proof fn law_wrap_one_line_width(line: Seq<char>, width: nat)
    ensures
        forall|i: int|
            0 <= i < split_lines(wrap_one_spec(line, width)).len() ==> fits_or_one_word(
                #[trigger] split_lines(wrap_one_spec(line, width))[i],
                width,
            ),
{
    lemma_words_are_words(line);
    lemma_wrap_fold_lines(words(line), width);
}

/// Re-flowing breaks a line only where needed: the first word of each
/// produced line would not have fitted at the end of the line before it.
pub proof fn law_wrap_one_greedy(line: Seq<char>, width: nat)
    ensures
        ({
            let ls = split_lines(wrap_one_spec(line, width));
            forall|i: int|
                0 <= i < ls.len() - 1 ==> (#[trigger] ls[i]).len() + 1 + words(ls[i + 1])[0].len()
                    > width
        }),
{
    lemma_words_are_words(line);
    lemma_wrap_fold_lines(words(line), width);
}

proof fn lemma_wrap_lines_identity(ls: Seq<Seq<char>>, width: nat)
    requires
        forall|i: int| 0 <= i < ls.len() ==> kept_verbatim(#[trigger] ls[i]) || is_fence(ls[i]),
    ensures
        wrap_lines(ls, width).0 == ls,
    decreases ls.len(),
{
    if ls.len() > 0 {
        let d = ls.drop_last();
        assert forall|i: int| 0 <= i < d.len() implies kept_verbatim(#[trigger] d[i]) || is_fence(d[i]) by {
            assert(d[i] == ls[i]);
        }
        lemma_wrap_lines_identity(d, width);
        assert(ls.last() == ls[ls.len() - 1]);
        assert(d.push(ls.last()) =~= ls);
    }
}

/// Text whose every line is blank, indented, a markdown table/list/quote
/// line or a fence line comes back unchanged.
pub proof fn law_wrap_paragraphs_keeps_verbatim_text(text: Seq<char>, width: nat)
    requires
        forall|i: int|
            0 <= i < split_lines(text).len() ==> kept_verbatim(#[trigger] split_lines(text)[i])
                || is_fence(split_lines(text)[i]),
    ensures
        wrap_paragraphs_spec(text, width) == text,
{
    lemma_wrap_lines_identity(split_lines(text), width);
    law_join_split_lines(text);
}


proof fn lemma_fold_unbroken(ws: Seq<Seq<char>>, width: nat)
    requires
        all_words(ws),
        ws.len() >= 1,
        sp_join(ws).len() <= width,
    ensures
        wrap_fold(ws, width) == (sp_join(ws), sp_join(ws).len()),
    decreases ws.len(),
{
    if ws.len() > 1 {
        lemma_all_words_drop_last(ws);
        lemma_fold_unbroken(ws.drop_last(), width);
    }
}

proof fn lemma_sp_join_head(ws: Seq<Seq<char>>)
    requires
        all_words(ws),
        ws.len() >= 1,
    ensures
        sp_join(ws).len() >= ws[0].len(),
        sp_join(ws).take(ws[0].len() as int) == ws[0],
        sp_join(ws).len() > ws[0].len() ==> sp_join(ws)[ws[0].len() as int] == ' ',
        !is_ws(sp_join(ws)[0]),
    decreases ws.len(),
{
    if ws.len() > 1 {
        let d = ws.drop_last();
        lemma_all_words_drop_last(ws);
        lemma_sp_join_head(d);
        assert(d[0] == ws[0]);
        let j = sp_join(d);
        let x = j.push(' ') + ws.last();
        assert(x.take(ws[0].len() as int) =~= j.take(ws[0].len() as int));
        if j.len() > ws[0].len() {
            assert(x[ws[0].len() as int] == j[ws[0].len() as int]);
        } else {
            assert(x[ws[0].len() as int] == ' ');
        }
        assert(x[0] == j[0]);
    } else {
        assert(ws[0].take(ws[0].len() as int) =~= ws[0]);
        assert(ws[0].len() > 0 && no_ws(ws[0]));
    }
}

/// A line that re-flowing produced comes back unchanged when handled
/// again outside a fence.
proof fn lemma_rewrap_line(l: Seq<char>, width: nat)
    requires
        words(l).len() > 0,
        sp_join(words(l)) == l,
        fits_or_one_word(l, width),
        !starts_fence(words(l)[0]),
    ensures
        wrap_step(l, false, width) == (l, false),
{
    let ws = words(l);
    lemma_words_are_words(l);
    assert(all_words(ws));
    lemma_sp_join_head(ws);
    assert(trim_start(l) == l);
    if is_fence(l) {
        if ws[0].len() >= 3 {
            assert(l.take(3) =~= ws[0].take(3)) by {
                assert(l.take(ws[0].len() as int).take(3) =~= l.take(3));
            }
            assert(seq!['`', '`', '`'].is_prefix_of(ws[0]));
        } else {
            assert(l[ws[0].len() as int] == '`');
        }
    }
    if !kept_verbatim(l) {
        if l.len() <= width {
            lemma_fold_unbroken(ws, width);
        } else {
            lemma_single_word(l);
        }
    }
}

proof fn lemma_split_join_newline(a: Seq<char>, b: Seq<char>)
    ensures
        split_lines(a.push('\n') + b) == split_lines(a) + split_lines(b),
    decreases b.len(),
{
    if b.len() == 0 {
        lemma_split_lines_newline(a);
        assert(a.push('\n') + b =~= a.push('\n'));
        assert(split_lines(a).push(Seq::<char>::empty()) =~= split_lines(a) + seq![Seq::<char>::empty()]);
    } else {
        let b0 = b.drop_last();
        lemma_split_join_newline(a, b0);
        lemma_split_lines_nonempty(b0);
        let x = a.push('\n') + b;
        assert(x.drop_last() =~= a.push('\n') + b0);
        assert(x.last() == b.last());
        let sa = split_lines(a);
        let sb0 = split_lines(b0);
        if b.last() == '\n' {
            assert((sa + sb0).push(Seq::<char>::empty()) =~= sa + sb0.push(Seq::<char>::empty()));
        } else {
            let p = sa + sb0;
            assert(p.update(p.len() - 1, p.last().push(b.last())) =~= sa + sb0.update(
                sb0.len() - 1,
                sb0.last().push(b.last()),
            ));
        }
    }
}

proof fn lemma_split_lines_no_newline(s: Seq<char>)
    ensures
        forall|i: int, j: int|
            0 <= i < split_lines(s).len() && 0 <= j < split_lines(s)[i].len() ==> #[trigger] split_lines(s)[i][j]
                != '\n',
    decreases s.len(),
{
    if s.len() > 0 {
        lemma_split_lines_no_newline(s.drop_last());
        lemma_split_lines_nonempty(s.drop_last());
        let prev = split_lines(s.drop_last());
        if s.last() != '\n' {
            let nl = prev.update(prev.len() - 1, prev.last().push(s.last()));
            assert forall|i: int, j: int| 0 <= i < nl.len() && 0 <= j < nl[i].len() implies #[trigger] nl[i][j]
                != '\n' by {
                if i == nl.len() - 1 && j < prev.last().len() {
                    assert(nl[i][j] == prev[i][j]);
                } else if i < nl.len() - 1 {
                    assert(nl[i] == prev[i]);
                }
            }
        } else {
            let nl = prev.push(Seq::<char>::empty());
            assert forall|i: int, j: int| 0 <= i < nl.len() && 0 <= j < nl[i].len() implies #[trigger] nl[i][j]
                != '\n' by {
                assert(nl[i] == prev[i]);
            }
        }
    }
}

/// The lines of each of `w`, one after the other.
pub open spec fn flat_lines(w: Seq<Seq<char>>) -> Seq<Seq<char>>
    decreases w.len(),
{
    if w.len() == 0 {
        Seq::<Seq<char>>::empty()
    } else {
        flat_lines(w.drop_last()) + split_lines(w.last())
    }
}

proof fn lemma_split_join(w: Seq<Seq<char>>)
    requires
        w.len() >= 1,
    ensures
        split_lines(join_lines(w)) == flat_lines(w),
    decreases w.len(),
{
    if w.len() == 1 {
        assert(flat_lines(w.drop_last()) == Seq::<Seq<char>>::empty());
        assert(w.last() == w[0]);
        assert(Seq::<Seq<char>>::empty() + split_lines(w.last()) =~= split_lines(w[0]));
    } else {
        lemma_split_join(w.drop_last());
        lemma_split_join_newline(join_lines(w.drop_last()), w.last());
    }
}

proof fn lemma_wrap_lines_len(ls: Seq<Seq<char>>, width: nat)
    ensures
        wrap_lines(ls, width).0.len() == ls.len(),
    decreases ls.len(),
{
    if ls.len() > 0 {
        lemma_wrap_lines_len(ls.drop_last(), width);
    }
}

proof fn lemma_wrap_append_lines(a: Seq<Seq<char>>, b: Seq<Seq<char>>, f: bool, width: nat)
    requires
        wrap_lines(a, width) == (a, f),
        forall|j: int| 0 <= j < b.len() ==> wrap_step(#[trigger] b[j], f, width) == (b[j], f),
    ensures
        wrap_lines(a + b, width) == (a + b, f),
    decreases b.len(),
{
    if b.len() == 0 {
        assert(a + b =~= a);
    } else {
        let b0 = b.drop_last();
        assert forall|j: int| 0 <= j < b0.len() implies wrap_step(#[trigger] b0[j], f, width) == (b0[j], f) by {
            assert(b0[j] == b[j]);
        }
        lemma_wrap_append_lines(a, b0, f, width);
        assert((a + b).drop_last() =~= a + b0);
        assert((a + b).last() == b[b.len() - 1]);
        assert((a + b0).push(b.last()) =~= a + b);
    }
}

proof fn lemma_single_line(x: Seq<char>)
    requires
        forall|j: int| 0 <= j < x.len() ==> x[j] != '\n',
    ensures
        split_lines(x) == seq![x],
{
    lemma_split_lines_append(Seq::<char>::empty(), x);
    assert(Seq::<char>::empty() + x =~= x);
    assert(seq![Seq::<char>::empty()].update(0, Seq::<char>::empty() + x) =~= seq![x]);
}

/// No word of a line that does not open or close a fence starts with
/// three backticks.
pub open spec fn no_inner_fences(ls: Seq<Seq<char>>) -> bool {
    forall|m: int, j: int|
        0 <= m < ls.len() && !is_fence(ls[m]) && 0 <= j < words(ls[m]).len() ==> !starts_fence(
            #[trigger] words(ls[m])[j],
        )
}

proof fn lemma_rewrap_prefix(ls: Seq<Seq<char>>, k: int, width: nat)
    requires
        0 <= k <= ls.len(),
        no_inner_fences(ls),
        forall|m: int, j: int| 0 <= m < ls.len() && 0 <= j < ls[m].len() ==> #[trigger] ls[m][j] != '\n',
    ensures
        wrap_lines(flat_lines(wrap_lines(ls.take(k), width).0), width) == (
            flat_lines(wrap_lines(ls.take(k), width).0),
            wrap_lines(ls.take(k), width).1,
        ),
    decreases k,
{
    if k == 0 {
        assert(ls.take(0) =~= Seq::<Seq<char>>::empty());
    } else {
        lemma_rewrap_prefix(ls, k - 1, width);
        let p = ls.take(k - 1);
        assert(ls.take(k).drop_last() =~= p);
        assert(ls.take(k).last() == ls[k - 1]);
        let x = ls[k - 1];
        let (w, f) = wrap_lines(p, width);
        let (y, f2) = wrap_step(x, f, width);
        assert(wrap_lines(ls.take(k), width) == (w.push(y), f2));
        assert(w.push(y).drop_last() =~= w);
        let fw = flat_lines(w);
        assert(flat_lines(w.push(y)) == fw + split_lines(y));
        assert forall|j: int| 0 <= j < x.len() implies x[j] != '\n' by {
            assert(ls[k - 1][j] != '\n');
        }
        if is_fence(x) || f || kept_verbatim(x) {
            lemma_single_line(x);
            assert(fw + seq![x] =~= fw.push(x));
            assert((fw.push(x)).drop_last() =~= fw);
        } else {
            let ws = words(x);
            lemma_words_are_words(x);
            lemma_wrap_fold_lines(ws, width);
            let sl = split_lines(y);
            assert forall|j: int| 0 <= j < ws.len() implies !starts_fence(#[trigger] ws[j]) by {
                assert(!starts_fence(words(ls[k - 1])[j]));
            }
            assert forall|j: int| 0 <= j < sl.len() implies wrap_step(#[trigger] sl[j], false, width) == (
                sl[j],
                false,
            ) by {
                if ws.len() > 0 {
                    assert(sp_join(words(sl[j])) == sl[j]);
                    assert(words(sl[j]).len() > 0);
                    assert(!starts_fence(words(sl[j])[0]));
                    lemma_rewrap_line(sl[j], width);
                } else {
                    assert(y == Seq::<char>::empty());
                    assert(sl =~= seq![Seq::<char>::empty()]);
                    assert(trim_start(sl[j]) == sl[j]);
                    assert(is_blank(sl[j]));
                }
            }
            lemma_wrap_append_lines(fw, sl, false, width);
        }
    }
}

/// Re-flowing is idempotent: re-flowing text that was already re-flowed
/// changes nothing, as long as no word other than the one that opens or
/// closes a fenced block starts with three backticks (such a word, moved
/// to the start of a line, would open a fence on the second pass).
pub proof fn law_wrap_paragraphs_idempotent(text: Seq<char>, width: nat)
    requires
        no_inner_fences(split_lines(text)),
    ensures
        wrap_paragraphs_spec(wrap_paragraphs_spec(text, width), width) == wrap_paragraphs_spec(text, width),
{
    let ls = split_lines(text);
    lemma_split_lines_nonempty(text);
    lemma_split_lines_no_newline(text);
    lemma_rewrap_prefix(ls, ls.len() as int, width);
    assert(ls.take(ls.len() as int) =~= ls);
    let w = wrap_lines(ls, width).0;
    lemma_wrap_lines_len(ls, width);
    lemma_split_join(w);
    law_join_split_lines(join_lines(w));
}

/// The `i`-th emitted line is that line handled by `wrap_step`, with the
/// fence state left by the lines before it.
proof fn lemma_wrap_lines_at(ls: Seq<Seq<char>>, width: nat, i: int)
    requires
        0 <= i < ls.len(),
    ensures
        wrap_lines(ls, width).0.len() == ls.len(),
        wrap_lines(ls, width).0[i] == wrap_step(ls[i], wrap_lines(ls.take(i), width).1, width).0,
    decreases ls.len(),
{
    lemma_wrap_lines_len(ls, width);
    let d = ls.drop_last();
    if i == ls.len() - 1 {
        assert(d =~= ls.take(i));
    } else {
        lemma_wrap_lines_at(d, width, i);
        assert(d.take(i) =~= ls.take(i));
        assert(d[i] == ls[i]);
    }
}

/// A line that starts with a tab is never re-flowed: whatever the lines
/// around it, it is emitted exactly as it came in, at its own place.
pub proof fn law_tab_indented_line_kept(ls: Seq<Seq<char>>, width: nat, i: int)
    requires
        0 <= i < ls.len(),
        ls[i].len() > 0,
        ls[i][0] == '\t',
    ensures
        wrap_lines(ls, width).0.len() == ls.len(),
        wrap_lines(ls, width).0[i] == ls[i],
{
    lemma_wrap_lines_at(ls, width, i);
}

/// A markdown table row, list item or quote line (starting with `|`, `-`,
/// `*` or `>`), a line indented by four spaces and a blank line are never
/// re-flowed: whatever the lines around them, each is emitted exactly as
/// it came in, at its own place.
pub proof fn law_marked_line_kept(ls: Seq<Seq<char>>, width: nat, i: int)
    requires
        0 <= i < ls.len(),
        ({
            let l = ls[i];
            ||| (l.len() > 0 && (l[0] == '|' || l[0] == '-' || l[0] == '*' || l[0] == '>'))
            ||| (l.len() >= 4 && l[0] == ' ' && l[1] == ' ' && l[2] == ' ' && l[3] == ' ')
            ||| (forall|j: int| 0 <= j < l.len() ==> is_ws(#[trigger] l[j]))
        }),
    ensures
        wrap_lines(ls, width).0.len() == ls.len(),
        wrap_lines(ls, width).0[i] == ls[i],
{
    let l = ls[i];
    if l.len() >= 4 && l[0] == ' ' && l[1] == ' ' && l[2] == ' ' && l[3] == ' ' {
        assert(l.take(4) =~= seq![' ', ' ', ' ', ' ']);
    }
    lemma_wrap_lines_at(ls, width, i);
}

/// A text whose every line starts with a tab comes back unchanged.
pub proof fn law_wrap_paragraphs_keeps_tab_indented_text(text: Seq<char>, width: nat)
    requires
        forall|i: int|
            0 <= i < split_lines(text).len() ==> (#[trigger] split_lines(text)[i]).len() > 0 && split_lines(
                text,
            )[i][0] == '\t',
    ensures
        wrap_paragraphs_spec(text, width) == text,
{
    let ls = split_lines(text);
    lemma_wrap_lines_len(ls, width);
    assert(wrap_lines(ls, width).0 =~= ls) by {
        assert forall|i: int| 0 <= i < ls.len() implies wrap_lines(ls, width).0[i] == ls[i] by {
            law_tab_indented_line_kept(ls, width, i);
        }
    }
    law_join_split_lines(text);
}

/// A text of one paragraph line (no newline, starting with a character
/// that is neither whitespace nor a markdown marker nor a backtick) is
/// re-flowed as that line: every emitted line fits in `width` columns or
/// is a single word, and the words are kept in order.
pub proof fn law_wrap_paragraphs_one_paragraph_line(t: Seq<char>, width: nat)
    requires
        t.len() > 0,
        forall|j: int| 0 <= j < t.len() ==> t[j] != '\n',
        !is_ws(t[0]),
        t[0] != '|' && t[0] != '-' && t[0] != '*' && t[0] != '>' && t[0] != '`',
    ensures
        wrap_paragraphs_spec(t, width) == wrap_one_spec(t, width),
        forall|i: int|
            0 <= i < split_lines(wrap_paragraphs_spec(t, width)).len() ==> fits_or_one_word(
                #[trigger] split_lines(wrap_paragraphs_spec(t, width))[i],
                width,
            ),
        words(wrap_paragraphs_spec(t, width)) == words(t),
{
    lemma_single_line(t);
    assert(trim_start(t) == t);
    assert(!is_fence(t)) by {
        if seq!['`', '`', '`'].is_prefix_of(t) {
            assert(t[0] == seq!['`', '`', '`'][0]);
        }
    }
    assert(!kept_verbatim(t)) by {
        if seq![' ', ' ', ' ', ' '].is_prefix_of(t) {
            assert(t[0] == ' ');
            assert(is_ws(' '));
        }
        if is_blank(t) {
            assert(is_ws(t[0]));
        }
    }
    let ls = seq![t];
    assert(ls.drop_last() =~= Seq::<Seq<char>>::empty());
    assert(ls.last() == t);
    assert(wrap_lines(Seq::<Seq<char>>::empty(), width).1 == false);
    assert(wrap_step(t, false, width).0 == wrap_one_spec(t, width));
    assert(wrap_lines(ls, width).0 =~= seq![wrap_one_spec(t, width)]);
    law_wrap_one_line_width(t, width);
    law_wrap_one_keeps_words(t, width);
}

} // verus!

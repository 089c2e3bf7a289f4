//! Character-level helpers shared by the renderer and the parsers:
//! Unicode whitespace, trimming, line splitting, and word splitting,
//! each with a specification over `Seq<char>`.

use vstd::prelude::*;

verus! {

/// The Unicode `White_Space` property, as `char::is_whitespace` uses it.
pub open spec fn is_ws(c: char) -> bool {
    ||| ('\t' <= c && c <= '\r')
    ||| c == ' '
    ||| c == '\u{85}'
    ||| c == '\u{A0}'
    ||| c == '\u{1680}'
    ||| ('\u{2000}' <= c && c <= '\u{200A}')
    ||| c == '\u{2028}'
    ||| c == '\u{2029}'
    ||| c == '\u{202F}'
    ||| c == '\u{205F}'
    ||| c == '\u{3000}'
}

/// Whether `c` is Unicode whitespace.
pub fn is_whitespace(c: char) -> (r: bool)
    ensures
        r == is_ws(c),
{
    ('\t' <= c && c <= '\r') || c == ' ' || c == '\u{85}' || c == '\u{A0}' || c == '\u{1680}'
        || ('\u{2000}' <= c && c <= '\u{200A}') || c == '\u{2028}' || c == '\u{2029}'
        || c == '\u{202F}' || c == '\u{205F}' || c == '\u{3000}'
}

/// The characters of `s`, in order.
pub fn chars_of(s: &str) -> (v: Vec<char>)
    ensures
        v@ == s@,
{
    broadcast use vstd::string::group_string_axioms;

    let mut v: Vec<char> = Vec::new();
    for c in it: s.chars()
        invariant
            v@ == it.seq().take(it.index() as int),
    {
        v.push(c);
    }
    v
}


/// Builds a `String` from its characters (`Iterator::collect` into `String`).
#[verifier::external_body]
pub fn string_from_chars(v: &Vec<char>) -> (s: String)
    ensures
        s@ == v@,
{
    v.iter().collect()
}

/// Whether two strings hold the same characters.
pub fn str_eq(a: &str, b: &str) -> (r: bool)
    ensures
        r == (a@ == b@),
{
    let va = chars_of(a);
    let vb = chars_of(b);
    if va.len() != vb.len() {
        return false;
    }
    let mut i: usize = 0;
    while i < va.len()
        invariant
            va@ == a@,
            vb@ == b@,
            va@.len() == vb@.len(),
            0 <= i <= va@.len(),
            forall|k: int| 0 <= k < i ==> va@[k] == vb@[k],
        decreases va@.len() - i,
    {
        if va[i] != vb[i] {
            return false;
        }
        i += 1;
    }
    assert(va@ =~= vb@);
    true
}

/// `s` without its leading whitespace (`str::trim_start`).
pub open spec fn trim_start(s: Seq<char>) -> Seq<char>
    decreases s.len(),
{
    if s.len() > 0 && is_ws(s[0]) {
        trim_start(s.drop_first())
    } else {
        s
    }
}

/// `s` without its trailing whitespace (`str::trim_end`).
pub open spec fn trim_end(s: Seq<char>) -> Seq<char>
    decreases s.len(),
{
    if s.len() > 0 && is_ws(s.last()) {
        trim_end(s.drop_last())
    } else {
        s
    }
}

/// Every character of `s` is whitespace (`s.trim().is_empty()`).
pub open spec fn is_blank(s: Seq<char>) -> bool {
    forall|i: int| 0 <= i < s.len() ==> is_ws(#[trigger] s[i])
}

/// The pieces of `s` between `'\n'` characters (`str::split('\n')`):
/// one more piece than there are newlines.
pub open spec fn split_lines(s: Seq<char>) -> Seq<Seq<char>>
    decreases s.len(),
{
    if s.len() == 0 {
        seq![Seq::<char>::empty()]
    } else {
        let prev = split_lines(s.drop_last());
        if s.last() == '\n' {
            prev.push(Seq::<char>::empty())
        } else {
            prev.update(prev.len() - 1, prev.last().push(s.last()))
        }
    }
}

/// The lines joined with `'\n'` between them (`[..].join("\n")`).
pub open spec fn join_lines(ls: Seq<Seq<char>>) -> Seq<char>
    decreases ls.len(),
{
    if ls.len() == 0 {
        Seq::<char>::empty()
    } else if ls.len() == 1 {
        ls[0]
    } else {
        join_lines(ls.drop_last()).push('\n') + ls.last()
    }
}

/// The maximal runs of non-whitespace characters of `s`, paired with
/// whether `s` ends inside such a run (`str::split_whitespace`).
pub open spec fn words_state(s: Seq<char>) -> (Seq<Seq<char>>, bool)
    decreases s.len(),
{
    if s.len() == 0 {
        (Seq::<Seq<char>>::empty(), false)
    } else {
        let (ws, in_word) = words_state(s.drop_last());
        let c = s.last();
        if is_ws(c) {
            (ws, false)
        } else if in_word {
            (ws.update(ws.len() - 1, ws.last().push(c)), true)
        } else {
            (ws.push(seq![c]), true)
        }
    }
}

/// The words of `s`: its maximal runs of non-whitespace characters.
pub open spec fn words(s: Seq<char>) -> Seq<Seq<char>> {
    words_state(s).0
}

pub proof fn lemma_split_lines_nonempty(s: Seq<char>)
    ensures
        split_lines(s).len() >= 1,
    decreases s.len(),
{
    if s.len() > 0 {
        lemma_split_lines_nonempty(s.drop_last());
    }
}

pub proof fn lemma_words_state_in_word(s: Seq<char>)
    ensures
        words_state(s).1 ==> words_state(s).0.len() >= 1,
    decreases s.len(),
{
    if s.len() > 0 {
        lemma_words_state_in_word(s.drop_last());
    }
}

proof fn lemma_trim_start_skip(s: Seq<char>, i: int)
    requires
        0 <= i <= s.len(),
        forall|j: int| 0 <= j < i ==> is_ws(#[trigger] s[j]),
        i == s.len() || !is_ws(s[i]),
    ensures
        trim_start(s) == s.skip(i),
    decreases i,
{
    if i == 0 {
        assert(s.skip(0) =~= s);
    } else {
        let t = s.drop_first();
        assert forall|j: int| 0 <= j < i - 1 implies is_ws(#[trigger] t[j]) by {
            assert(t[j] == s[j + 1]);
        }
        lemma_trim_start_skip(t, i - 1);
        assert(t.skip(i - 1) =~= s.skip(i));
    }
}

proof fn lemma_trim_end_take(s: Seq<char>, i: int)
    requires
        0 <= i <= s.len(),
        forall|j: int| i <= j < s.len() ==> is_ws(#[trigger] s[j]),
        i == 0 || !is_ws(s[i - 1]),
    ensures
        trim_end(s) == s.take(i),
    decreases s.len() - i,
{
    if i == s.len() {
        assert(s.take(i) =~= s);
    } else {
        let t = s.drop_last();
        assert forall|j: int| i <= j < t.len() implies is_ws(#[trigger] t[j]) by {
            assert(t[j] == s[j]);
        }
        lemma_trim_end_take(t, i);
        assert(t.take(i) =~= s.take(i));
    }
}

/// Trimming the end keeps a prefix, and keeps a first character that is
/// not whitespace.
pub proof fn lemma_trim_end_prefix(s: Seq<char>)
    ensures
        trim_end(s).len() <= s.len(),
        trim_end(s) == s.take(trim_end(s).len() as int),
        s.len() > 0 && !is_ws(s[0]) ==> trim_end(s).len() > 0,
    decreases s.len(),
{
    if s.len() > 0 && is_ws(s.last()) {
        let t = s.drop_last();
        lemma_trim_end_prefix(t);
        assert(t.take(trim_end(t).len() as int) =~= s.take(trim_end(t).len() as int));
        if !is_ws(s[0]) {
            assert(s.len() > 1);
            assert(t[0] == s[0]);
        }
    } else {
        assert(s.take(s.len() as int) =~= s);
    }
}

/// The characters of `s` from index `from` to index `to`.
pub fn copy_range(s: &Vec<char>, from: usize, to: usize) -> (r: Vec<char>)
    requires
        from <= to <= s.len(),
    ensures
        r@ == s@.subrange(from as int, to as int),
{
    let mut r: Vec<char> = Vec::new();
    let mut i: usize = from;
    while i < to
        invariant
            from <= i <= to <= s.len(),
            r@ == s@.subrange(from as int, i as int),
        decreases to - i,
    {
        r.push(s[i]);
        i += 1;
    }
    r
}

/// Appends the characters of `src` to `dst`.
pub fn append_chars(dst: &mut Vec<char>, src: &Vec<char>)
    ensures
        final(dst)@ == old(dst)@ + src@,
{
    let mut i: usize = 0;
    while i < src.len()
        invariant
            0 <= i <= src.len(),
            dst@ == old(dst)@ + src@.take(i as int),
        decreases src.len() - i,
    {
        dst.push(src[i]);
        i += 1;
    }
    assert(src@.take(src.len() as int) =~= src@);
}

/// Appends the characters of `src` to `dst`.
pub fn append_str(dst: &mut Vec<char>, src: &str)
    ensures
        final(dst)@ == old(dst)@ + src@,
{
    let v = chars_of(src);
    append_chars(dst, &v);
}

/// `s` without its leading whitespace.
pub fn trim_start_chars(s: &Vec<char>) -> (r: Vec<char>)
    ensures
        r@ == trim_start(s@),
{
    let mut i: usize = 0;
    while i < s.len() && is_whitespace(s[i])
        invariant
            0 <= i <= s.len(),
            forall|j: int| 0 <= j < i ==> is_ws(#[trigger] s@[j]),
        decreases s.len() - i,
    {
        i += 1;
    }
    proof {
        lemma_trim_start_skip(s@, i as int);
        assert(s@.skip(i as int) =~= s@.subrange(i as int, s.len() as int));
    }
    copy_range(s, i, s.len())
}

/// `s` without its trailing whitespace.
pub fn trim_end_chars(s: &Vec<char>) -> (r: Vec<char>)
    ensures
        r@ == trim_end(s@),
{
    let mut i: usize = s.len();
    while i > 0 && is_whitespace(s[i - 1])
        invariant
            0 <= i <= s.len(),
            forall|j: int| i <= j < s.len() ==> is_ws(#[trigger] s@[j]),
        decreases i,
    {
        i -= 1;
    }
    proof {
        lemma_trim_end_take(s@, i as int);
        assert(s@.take(i as int) =~= s@.subrange(0, i as int));
    }
    copy_range(s, 0, i)
}

/// Whether every character of `s` is whitespace.
pub fn is_blank_chars(s: &Vec<char>) -> (r: bool)
    ensures
        r == is_blank(s@),
{
    let mut i: usize = 0;
    while i < s.len()
        invariant
            0 <= i <= s.len(),
            forall|j: int| 0 <= j < i ==> is_ws(#[trigger] s@[j]),
        decreases s.len() - i,
    {
        if !is_whitespace(s[i]) {
            return false;
        }
        i += 1;
    }
    true
}

/// The character sequences held by a vector of character vectors.
pub open spec fn views(v: Seq<Vec<char>>) -> Seq<Seq<char>> {
    v.map_values(|x: Vec<char>| x@)
}

proof fn lemma_views_push(v: Seq<Vec<char>>, x: Vec<char>)
    ensures
        views(v.push(x)) == views(v).push(x@),
{
    assert(views(v.push(x)) =~= views(v).push(x@));
}

/// The pieces of `s` between newlines.
pub fn split_lines_chars(s: &Vec<char>) -> (r: Vec<Vec<char>>)
    ensures
        views(r@) == split_lines(s@),
{
    let mut lines: Vec<Vec<char>> = Vec::new();
    let mut cur: Vec<char> = Vec::new();
    let mut i: usize = 0;
    while i < s.len()
        invariant
            0 <= i <= s.len(),
            views(lines@).push(cur@) == split_lines(s@.take(i as int)),
        decreases s.len() - i,
    {
        let ghost prev = s@.take(i as int);
        let c = s[i];
        proof {
            assert(s@.take(i + 1).drop_last() =~= prev);
            lemma_split_lines_nonempty(prev);
        }
        if c == '\n' {
            let done = cur;
            proof { lemma_views_push(lines@, done); }
            lines.push(done);
            cur = Vec::new();
            assert(views(lines@).push(cur@) =~= split_lines(s@.take(i + 1)));
        } else {
            cur.push(c);
            assert(views(lines@).push(cur@) =~= split_lines(s@.take(i + 1)));
        }
        i += 1;
    }
    proof { lemma_views_push(lines@, cur); }
    lines.push(cur);
    assert(s@.take(s.len() as int) =~= s@);
    lines
}

/// The words of `s`, in order.
pub fn words_chars(s: &Vec<char>) -> (r: Vec<Vec<char>>)
    ensures
        views(r@) == words(s@),
{
    let mut ws: Vec<Vec<char>> = Vec::new();
    let mut cur: Vec<char> = Vec::new();
    let mut in_word = false;
    let mut i: usize = 0;
    while i < s.len()
        invariant
            0 <= i <= s.len(),
            in_word ==> cur@.len() > 0,
            !in_word ==> cur@.len() == 0,
            words_state(s@.take(i as int)) == (
                if in_word { views(ws@).push(cur@) } else { views(ws@) },
                in_word,
            ),
        decreases s.len() - i,
    {
        let ghost prev = s@.take(i as int);
        let c = s[i];
        proof {
            assert(s@.take(i + 1).drop_last() =~= prev);
        }
        if is_whitespace(c) {
            if in_word {
                let done = cur;
                proof { lemma_views_push(ws@, done); }
                ws.push(done);
                cur = Vec::new();
                in_word = false;
            }
            assert(words_state(s@.take(i + 1)).0 =~= views(ws@));
        } else {
            cur.push(c);
            if in_word {
                assert(words_state(s@.take(i + 1)).0 =~= views(ws@).push(cur@));
            } else {
                in_word = true;
                assert(cur@ =~= seq![c]);
                assert(words_state(s@.take(i + 1)).0 =~= views(ws@).push(cur@));
            }
        }
        i += 1;
    }
    if in_word {
        proof { lemma_views_push(ws@, cur); }
        ws.push(cur);
    }
    assert(s@.take(s.len() as int) =~= s@);
    ws
}


/// No character of `s` is whitespace.
pub open spec fn no_ws(s: Seq<char>) -> bool {
    forall|j: int| 0 <= j < s.len() ==> !is_ws(#[trigger] s[j])
}

/// Every word of `s` is non-empty and holds no whitespace.
pub proof fn lemma_words_are_words(s: Seq<char>)
    ensures
        forall|i: int|
            0 <= i < words(s).len() ==> (#[trigger] words(s)[i]).len() > 0 && no_ws(words(s)[i]),
        words_state(s).1 ==> words(s).len() > 0,
    decreases s.len(),
{
    if s.len() > 0 {
        lemma_words_are_words(s.drop_last());
        let (ws, in_word) = words_state(s.drop_last());
        let c = s.last();
        assert(ws == words(s.drop_last()));
        if is_ws(c) {
            assert(words(s) == ws);
        } else {
            if in_word {
                let nw = ws.update(ws.len() - 1, ws.last().push(c));
                assert forall|i: int| 0 <= i < nw.len() implies (#[trigger] nw[i]).len() > 0 && no_ws(nw[i]) by {
                    if i == ws.len() - 1 {
                        assert(ws[i] == words(s.drop_last())[i]);
                        assert forall|j: int| 0 <= j < nw[i].len() implies !is_ws(#[trigger] nw[i][j]) by {
                            if j < ws[i].len() {
                                assert(nw[i][j] == ws[i][j]);
                            }
                        }
                    } else {
                        assert(nw[i] == words(s.drop_last())[i]);
                    }
                }
                assert(words(s) == nw);
            } else {
                let nw = ws.push(seq![c]);
                assert forall|i: int| 0 <= i < nw.len() implies (#[trigger] nw[i]).len() > 0 && no_ws(nw[i]) by {
                    if i < ws.len() {
                        assert(nw[i] == words(s.drop_last())[i]);
                    }
                }
                assert(words(s) == nw);
            }
        }
    }
}

/// Appending whitespace ends the current word and adds none.
pub proof fn lemma_words_append_ws(p: Seq<char>, c: char)
    requires
        is_ws(c),
    ensures
        words_state(p.push(c)) == (words(p), false),
{
    assert(p.push(c).drop_last() =~= p);
}

/// Appending a word after whitespace (or at the start) adds that word.
pub proof fn lemma_words_append_word(p: Seq<char>, w: Seq<char>)
    requires
        !words_state(p).1,
        w.len() > 0,
        no_ws(w),
    ensures
        words_state(p + w) == (words(p).push(w), true),
    decreases w.len(),
{
    if w.len() == 1 {
        assert((p + w).drop_last() =~= p);
        assert(w =~= seq![w[0]]);
    } else {
        let wd = w.drop_last();
        assert(no_ws(wd)) by {
            assert forall|j: int| 0 <= j < wd.len() implies !is_ws(#[trigger] wd[j]) by {
                assert(wd[j] == w[j]);
            }
        }
        lemma_words_append_word(p, wd);
        assert((p + w).drop_last() =~= p + wd);
        assert(!is_ws(w.last()));
        assert(wd.push(w.last()) =~= w);
        assert(words(p).push(wd).update(words(p).len() as int, wd.push(w.last())) =~= words(p).push(w));
    }
}

/// Splitting after appending text without newlines extends the last piece.
pub proof fn lemma_split_lines_append(a: Seq<char>, b: Seq<char>)
    requires
        forall|j: int| 0 <= j < b.len() ==> b[j] != '\n',
    ensures
        split_lines(a + b) == split_lines(a).update(
            split_lines(a).len() - 1,
            split_lines(a).last() + b,
        ),
    decreases b.len(),
{
    lemma_split_lines_nonempty(a);
    let sa = split_lines(a);
    if b.len() == 0 {
        assert(a + b =~= a);
        assert(sa.update(sa.len() - 1, sa.last() + b) =~= sa);
    } else {
        let bd = b.drop_last();
        lemma_split_lines_append(a, bd);
        assert((a + b).drop_last() =~= a + bd);
        let prev = sa.update(sa.len() - 1, sa.last() + bd);
        assert(prev.last() == sa.last() + bd);
        assert((sa.last() + bd).push(b.last()) =~= sa.last() + b);
        assert(prev.update(prev.len() - 1, prev.last().push(b.last())) =~= sa.update(
            sa.len() - 1,
            sa.last() + b,
        ));
    }
}

/// Splitting after a trailing newline starts a new, empty piece.
pub proof fn lemma_split_lines_newline(a: Seq<char>)
    ensures
        split_lines(a.push('\n')) == split_lines(a).push(Seq::<char>::empty()),
{
    assert(a.push('\n').drop_last() =~= a);
}

/// Joining the pieces of `s` gives back `s`.
pub proof fn law_join_split_lines(s: Seq<char>)
    ensures
        join_lines(split_lines(s)) == s,
    decreases s.len(),
{
    if s.len() > 0 {
        let p = s.drop_last();
        law_join_split_lines(p);
        lemma_split_lines_nonempty(p);
        let prev = split_lines(p);
        if s.last() == '\n' {
            assert(prev.push(Seq::<char>::empty()).drop_last() =~= prev);
            assert(join_lines(prev).push('\n') + Seq::<char>::empty() =~= s);
        } else {
            let nl = prev.update(prev.len() - 1, prev.last().push(s.last()));
            if prev.len() == 1 {
                assert(nl[0] =~= s);
            } else {
                assert(nl.drop_last() =~= prev.drop_last());
                assert(join_lines(prev) == join_lines(prev.drop_last()).push('\n') + prev.last());
                assert(nl.last() == prev.last().push(s.last()));
                assert(join_lines(nl) == join_lines(prev.drop_last()).push('\n') + nl.last());
                assert(s =~= join_lines(prev).push(s.last()));
                assert(join_lines(nl) =~= s);
            }
        }
    }
}

} // verus!

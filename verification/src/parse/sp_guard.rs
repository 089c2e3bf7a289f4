//! The statements sqlparser 0.51 cannot be handed: in three places its
//! parser unwraps a failed sub-parse and panics instead of returning an
//! error. This module recognises, on sqlparser's own tokens, every chunk
//! that could reach one of them:
//!
//! - `GRANTED BY` (in `GRANT` and `REVOKE`) not followed by a grantee name;
//! - `RELAY LOGS FOR CHANNEL` (in `FLUSH`, MySQL and generic dialects) not
//!   followed by a channel name;
//! - the MySQL `DIV` operator, whose right operand is parsed the same way:
//!   it is let through only when what follows is an operand that the
//!   expression parser reads without failing.

use vstd::prelude::*;
use crate::parse::sp_call::SqlpDialect;

verus! {

/// The keywords that the guard looks at, as sqlparser classifies a word
/// (a quoted word is never a keyword): `Stop` for a clause keyword that
/// ends an expression (`AS`, `FROM`, `WHERE`, ...), `NoKeyword` for a
/// plain identifier, `Other` for every other keyword.
#[derive(Debug, Clone, Copy, PartialEq, Eq, Structural)]
pub enum SqlKw {
    NoKeyword,
    Div,
    Granted,
    By,
    Relay,
    Logs,
    For,
    Channel,
    And,
    Or,
    Xor,
    Stop,
    Other,
}

/// A token of sqlparser's tokenizer, as far as the guard reads it:
/// whitespace and comments are `Space`; the comparison operators are `Cmp`.
#[derive(Debug, Clone, Copy, PartialEq, Eq, Structural)]
pub enum SqlTok {
    Space,
    Word { kw: SqlKw, quote: Option<char> },
    Number,
    SingleQuoted,
    DoubleQuoted,
    Comma,
    Period,
    LParen,
    RParen,
    SemiColon,
    Plus,
    Minus,
    Mul,
    Slash,
    Mod,
    Cmp,
    Other,
}

/// The tokens that the parser reads: all but whitespace and comments.
pub open spec fn non_space(ts: Seq<SqlTok>) -> Seq<SqlTok>
    decreases ts.len(),
{
    if ts.len() == 0 {
        Seq::<SqlTok>::empty()
    } else if ts.last() is Space {
        non_space(ts.drop_last())
    } else {
        non_space(ts.drop_last()).push(ts.last())
    }
}

/// The token is the keyword `k`.
pub open spec fn is_kw(t: SqlTok, k: SqlKw) -> bool {
    t matches SqlTok::Word { kw, .. } && kw == k
}

/// sqlparser reads the token as an identifier (`parse_identifier`).
pub open spec fn is_ident(t: SqlTok) -> bool {
    t is Word || t is SingleQuoted || t is DoubleQuoted
}

/// `GRANTED BY` at `i` with no identifier after it.
pub open spec fn grant_at(ns: Seq<SqlTok>, i: int) -> bool {
    &&& 0 <= i
    &&& i + 1 < ns.len()
    &&& is_kw(ns[i], SqlKw::Granted)
    &&& is_kw(ns[i + 1], SqlKw::By)
    &&& !(i + 2 < ns.len() && is_ident(ns[i + 2]))
}

/// An object name (`a`, `a.b`, ...) starts at `j` and reads without failing.
pub open spec fn name_ok(ns: Seq<SqlTok>, j: int) -> bool
    decreases ns.len() - j,
{
    if j < 0 || j >= ns.len() || !is_ident(ns[j]) {
        false
    } else if j + 1 < ns.len() && ns[j + 1] is Period {
        name_ok(ns, j + 2)
    } else {
        true
    }
}

/// `RELAY LOGS FOR CHANNEL` at `i` with no channel name after it.
pub open spec fn channel_at(ns: Seq<SqlTok>, i: int) -> bool {
    &&& 0 <= i
    &&& i + 3 < ns.len()
    &&& is_kw(ns[i], SqlKw::Relay)
    &&& is_kw(ns[i + 1], SqlKw::Logs)
    &&& is_kw(ns[i + 2], SqlKw::For)
    &&& is_kw(ns[i + 3], SqlKw::Channel)
    &&& !name_ok(ns, i + 4)
}

/// A single operand: a number, a string, or a plain or quoted identifier.
pub open spec fn is_atom(t: SqlTok) -> bool {
    t is Number || t is SingleQuoted || is_kw(t, SqlKw::NoKeyword)
}

/// An arithmetic, comparison or logical operator, `DIV` included.
pub open spec fn is_binop(t: SqlTok) -> bool {
    ||| t is Plus
    ||| t is Minus
    ||| t is Mul
    ||| t is Slash
    ||| t is Mod
    ||| t is Cmp
    ||| is_kw(t, SqlKw::Div)
    ||| is_kw(t, SqlKw::And)
    ||| is_kw(t, SqlKw::Or)
    ||| is_kw(t, SqlKw::Xor)
}

/// A token at which the expression parser stops, having read a whole
/// expression: a comma, a closing parenthesis, a semicolon, a clause
/// keyword or an identifier (an alias).
pub open spec fn is_stop(t: SqlTok) -> bool {
    t is Comma || t is RParen || t is SemiColon || is_kw(t, SqlKw::Stop) || is_kw(t, SqlKw::NoKeyword)
}

/// Reading an operand chain from `j` (`operand`: an operand is due next;
/// `depth`: parentheses opened inside the chain): the index of the token
/// that ends it, or `None` when the chain does not have the simple shape
/// `[+|-]* atom (op [+|-]* atom)*`, with parenthesised chains as atoms.
pub open spec fn chain_end(ns: Seq<SqlTok>, j: int, depth: nat, operand: bool) -> Option<int>
    decreases ns.len() - j,
{
    if j < 0 {
        None
    } else if j >= ns.len() {
        if !operand && depth == 0 {
            Some(j)
        } else {
            None
        }
    } else if operand {
        if ns[j] is Plus || ns[j] is Minus {
            chain_end(ns, j + 1, depth, true)
        } else if is_atom(ns[j]) {
            chain_end(ns, j + 1, depth, false)
        } else if ns[j] is LParen {
            chain_end(ns, j + 1, depth + 1, true)
        } else {
            None
        }
    } else if is_binop(ns[j]) {
        chain_end(ns, j + 1, depth, true)
    } else if ns[j] is RParen && depth > 0 {
        chain_end(ns, j + 1, (depth - 1) as nat, false)
    } else if depth == 0 && is_stop(ns[j]) {
        Some(j)
    } else {
        None
    }
}

/// The last token index before which every operand of a `DIV` must end:
/// sqlparser counts nested parses and fails (a failure that `DIV` turns
/// into a panic) past 50 levels, and it opens at most one level per token
/// read, plus two for the statement.
pub open spec fn div_reach() -> int {
    48
}

/// A MySQL `DIV` at `i` whose right operand is not a simple chain ending
/// within `div_reach()` tokens.
pub open spec fn div_at(ns: Seq<SqlTok>, i: int) -> bool {
    &&& 0 <= i < ns.len()
    &&& is_kw(ns[i], SqlKw::Div)
    &&& !(chain_end(ns, i + 1, 0, true) matches Some(e) && e <= div_reach())
}

/// The chunk, read as the tokens `ts`, could reach one of the places
/// where sqlparser panics under dialect `d`.
pub open spec fn panic_pattern(d: SqlpDialect, ts: Seq<SqlTok>) -> bool {
    let ns = non_space(ts);
    ||| exists|i: int| grant_at(ns, i)
    ||| (d is MySql || d is Generic) && exists|i: int| channel_at(ns, i)
    ||| d is MySql && exists|i: int| div_at(ns, i)
}

fn is_kw_exec(t: SqlTok, k: SqlKw) -> (r: bool)
    ensures
        r == is_kw(t, k),
{
    match t {
        SqlTok::Word { kw, .. } => kw == k,
        _ => false,
    }
}

fn is_ident_exec(t: SqlTok) -> (r: bool)
    ensures
        r == is_ident(t),
{
    match t {
        SqlTok::Word { .. } | SqlTok::SingleQuoted | SqlTok::DoubleQuoted => true,
        _ => false,
    }
}

/// The tokens that the parser reads (see `non_space`).
pub fn non_space_exec(ts: &Vec<SqlTok>) -> (r: Vec<SqlTok>)
    ensures
        r@ == non_space(ts@),
{
    let mut r: Vec<SqlTok> = Vec::new();
    let mut i: usize = 0;
    while i < ts.len()
        invariant
            0 <= i <= ts@.len(),
            r@ == non_space(ts@.take(i as int)),
        decreases ts@.len() - i,
    {
        assert(ts@.take(i + 1).drop_last() =~= ts@.take(i as int));
        let t = ts[i];
        match t {
            SqlTok::Space => {},
            _ => {
                r.push(t);
            },
        }
        i += 1;
    }
    assert(ts@.take(i as int) =~= ts@);
    r
}

fn grant_hole(ns: &Vec<SqlTok>) -> (r: bool)
    ensures
        r == exists|i: int| grant_at(ns@, i),
{
    let mut i: usize = 0;
    while i < ns.len()
        invariant
            i <= ns@.len(),
            forall|k: int| 0 <= k < i ==> !grant_at(ns@, k),
        decreases ns@.len() - i,
    {
        if ns.len() - i > 1 && is_kw_exec(ns[i], SqlKw::Granted) && is_kw_exec(ns[i + 1], SqlKw::By) && !(ns.len()
            - i > 2 && is_ident_exec(ns[i + 2])) {
            assert(grant_at(ns@, i as int));
            return true;
        }
        i += 1;
    }
    assert forall|k: int| !grant_at(ns@, k) by {
        if 0 <= k < i {
        }
    }
    false
}

fn name_ok_exec(ns: &Vec<SqlTok>, j0: usize) -> (r: bool)
    ensures
        r == name_ok(ns@, j0 as int),
{
    let mut j = j0;
    loop
        invariant
            j0 <= j,
            name_ok(ns@, j as int) == name_ok(ns@, j0 as int),
        decreases ns@.len() - j,
    {
        if j >= ns.len() || !is_ident_exec(ns[j]) {
            return false;
        }
        if j + 1 < ns.len() {
            match ns[j + 1] {
                SqlTok::Period => {
                    j = j + 2;
                },
                _ => {
                    return true;
                },
            }
        } else {
            return true;
        }
    }
}

fn channel_hole(ns: &Vec<SqlTok>) -> (r: bool)
    ensures
        r == exists|i: int| channel_at(ns@, i),
{
    let mut i: usize = 0;
    while i < ns.len()
        invariant
            i <= ns@.len(),
            forall|k: int| 0 <= k < i ==> !channel_at(ns@, k),
        decreases ns@.len() - i,
    {
        if ns.len() - i > 3 && is_kw_exec(ns[i], SqlKw::Relay) && is_kw_exec(ns[i + 1], SqlKw::Logs) && is_kw_exec(ns[i + 2], SqlKw::For)
            && is_kw_exec(ns[i + 3], SqlKw::Channel) && !name_ok_exec(ns, i + 4) {
            assert(channel_at(ns@, i as int));
            return true;
        }
        i += 1;
    }
    assert forall|k: int| !channel_at(ns@, k) by {
        if 0 <= k < i {
        }
    }
    false
}

fn is_atom_exec(t: SqlTok) -> (r: bool)
    ensures
        r == is_atom(t),
{
    match t {
        SqlTok::Number | SqlTok::SingleQuoted => true,
        SqlTok::Word { kw: SqlKw::NoKeyword, .. } => true,
        _ => false,
    }
}

fn is_binop_exec(t: SqlTok) -> (r: bool)
    ensures
        r == is_binop(t),
{
    match t {
        SqlTok::Plus | SqlTok::Minus | SqlTok::Mul | SqlTok::Slash | SqlTok::Mod | SqlTok::Cmp => true,
        SqlTok::Word { kw: SqlKw::Div, .. } | SqlTok::Word { kw: SqlKw::And, .. } => true,
        SqlTok::Word { kw: SqlKw::Or, .. } | SqlTok::Word { kw: SqlKw::Xor, .. } => true,
        _ => false,
    }
}

fn is_stop_exec(t: SqlTok) -> (r: bool)
    ensures
        r == is_stop(t),
{
    match t {
        SqlTok::Comma | SqlTok::RParen | SqlTok::SemiColon => true,
        SqlTok::Word { kw: SqlKw::Stop, .. } | SqlTok::Word { kw: SqlKw::NoKeyword, .. } => true,
        _ => false,
    }
}

/// Where the operand chain starting at `j0` ends (see `chain_end`).
fn chain_end_exec(ns: &Vec<SqlTok>, j0: usize) -> (r: Option<usize>)
    ensures
        match r {
            Some(e) => chain_end(ns@, j0 as int, 0, true) == Some(e as int),
            None => chain_end(ns@, j0 as int, 0, true) is None,
        },
{
    let mut j = j0;
    let mut depth: usize = 0;
    let mut operand = true;
    loop
        invariant
            j0 <= j,
            depth <= j - j0,
            chain_end(ns@, j as int, depth as nat, operand) == chain_end(ns@, j0 as int, 0, true),
        decreases ns@.len() - j,
    {
        if j >= ns.len() {
            if !operand && depth == 0 {
                return Some(j);
            } else {
                return None;
            }
        }
        let t = ns[j];
        if operand {
            match t {
                SqlTok::Plus | SqlTok::Minus => {},
                SqlTok::LParen => {
                    depth = depth + 1;
                },
                _ => {
                    if is_atom_exec(t) {
                        operand = false;
                    } else {
                        return None;
                    }
                },
            }
        } else if is_binop_exec(t) {
            operand = true;
        } else if depth > 0 && matches!(t, SqlTok::RParen) {
            depth = depth - 1;
        } else if depth == 0 && is_stop_exec(t) {
            return Some(j);
        } else {
            return None;
        }
        j = j + 1;
    }
}

fn div_hole(ns: &Vec<SqlTok>) -> (r: bool)
    ensures
        r == exists|i: int| div_at(ns@, i),
{
    let mut i: usize = 0;
    while i < ns.len()
        invariant
            forall|k: int| 0 <= k < i ==> !div_at(ns@, k),
        decreases ns@.len() - i,
    {
        if is_kw_exec(ns[i], SqlKw::Div) {
            let ok = match chain_end_exec(ns, i + 1) {
                Some(e) => e <= 48,
                None => false,
            };
            if !ok {
                assert(div_at(ns@, i as int));
                return true;
            }
        }
        i += 1;
    }
    assert forall|k: int| !div_at(ns@, k) by {
        if 0 <= k < i {
        }
    }
    false
}

/// Whether the chunk, read as the tokens `ts`, could reach one of the
/// places where sqlparser panics (see `panic_pattern`).
pub fn panic_pattern_exec(d: SqlpDialect, ts: &Vec<SqlTok>) -> (r: bool)
    ensures
        r == panic_pattern(d, ts@),
{
    let ns = non_space_exec(ts);
    if grant_hole(&ns) {
        return true;
    }
    let flush_dialect = match d {
        SqlpDialect::MySql | SqlpDialect::Generic => true,
        _ => false,
    };
    if flush_dialect && channel_hole(&ns) {
        return true;
    }
    match d {
        SqlpDialect::MySql => div_hole(&ns),
        _ => false,
    }
}

} // verus!

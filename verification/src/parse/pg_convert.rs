//! Postgres parse tree -> internal AST: the pieces statements are made
//! of. Column references are collected out of expressions, result
//! targets become projections, range vars become table references, and
//! join trees unfold into FROM tables and joins.

use vstd::prelude::*;
use vstd::string::StringExecFns;
use vstd::utf8::encode_utf8;
use crate::parse::ast::{are_cols, is_col, is_col_list, ColV, Expr, JoinClause, JoinKind, Projection, TableRef, TableRefV};
use crate::parse::pg_node::{present, present_ref, PgAlias, PgJoinExpr, PgNode, PgRangeVar, PgResTarget};
use crate::parse::range::TextRange;
use crate::text::{append_str, chars_of, str_eq, string_from_chars};

verus! {

/// The `String` node values among `fields[..k]`, in order.
pub open spec fn string_parts(fields: Seq<PgNode>, k: nat) -> Seq<Seq<char>>
    decreases k,
{
    if k == 0 || k > fields.len() {
        Seq::<Seq<char>>::empty()
    } else {
        string_parts(fields, (k - 1) as nat) + match fields[k - 1] {
            PgNode::String { sval } => seq![sval@],
            _ => Seq::<Seq<char>>::empty(),
        }
    }
}

/// The column a `ColumnRef` names: `name`, `q.name` or `s.t.name` (the
/// qualifier then being `s.t`); none for other shapes or an empty name.
pub open spec fn column_ref_col(fields: Seq<PgNode>) -> Seq<ColV> {
    let p = string_parts(fields, fields.len());
    if p.len() == 1 && p[0].len() > 0 {
        seq![(None::<Seq<char>>, p[0])]
    } else if p.len() == 2 && p[1].len() > 0 {
        seq![(Some(p[0]), p[1])]
    } else if p.len() == 3 && p[2].len() > 0 {
        seq![(Some(p[0] + "."@ + p[1]), p[2])]
    } else {
        Seq::<ColV>::empty()
    }
}

pub proof fn lemma_present_decreases(o: Option<Box<PgNode>>)
    ensures
        present(o) matches Some(n) ==> decreases_to!(o => n),
{
    if let Some(b) = o {
        assert(decreases_to!(o => o->Some_0));
    }
}

/// The column references in an optional child.
pub open spec fn opt_refs(o: Option<Box<PgNode>>) -> Seq<ColV>
    decreases o, 1nat,
{
    proof {
        lemma_present_decreases(o);
    }
    match present(o) {
        Some(n) => col_refs(n),
        None => Seq::<ColV>::empty(),
    }
}

/// Every column reference inside an expression, in document order:
/// through operators, boolean connectives, function arguments, lists,
/// sub-links (their test expression and the target list and WHERE of
/// their sub-select), result targets, null tests, CASE arms, type casts,
/// `COALESCE`, `GREATEST`/`LEAST`, boolean tests, row constructors,
/// array constructors, `COLLATE` and subscripts.
pub open spec fn col_refs(node: PgNode) -> Seq<ColV>
    decreases node, 0nat,
{
    match node {
        PgNode::ColumnRef { fields, .. } => column_ref_col(fields@),
        PgNode::AExpr { lexpr, rexpr } => {
            proof {
                assert(decreases_to!(node => node->AExpr_lexpr));
                assert(decreases_to!(node => node->AExpr_rexpr));
            }
            opt_refs(lexpr) + opt_refs(rexpr)
        },
        PgNode::BoolExpr { args } => {
            proof {
                assert(decreases_to!(node => node->BoolExpr_args));
            }
            list_refs(args, args@.len())
        },
        PgNode::FuncCall { args } => {
            proof {
                assert(decreases_to!(node => node->FuncCall_args));
            }
            list_refs(args, args@.len())
        },
        PgNode::List { items } => {
            proof {
                assert(decreases_to!(node => node->List_items));
            }
            list_refs(items, items@.len())
        },
        PgNode::SubLink { testexpr, subselect } => {
            proof {
                assert(decreases_to!(node => node->SubLink_testexpr));
                assert(decreases_to!(node => node->SubLink_subselect));
                lemma_present_decreases(subselect);
                if let Some(PgNode::SelectStmt(s)) = present(subselect) {
                    let n = present(subselect)->0;
                    assert(decreases_to!(n => n->SelectStmt_0));
                    assert(decreases_to!(s => s.target_list));
                    assert(decreases_to!(s => s.where_clause));
                }
            }
            opt_refs(testexpr) + match present(subselect) {
                Some(PgNode::SelectStmt(s)) => list_refs(s.target_list, s.target_list@.len()) + opt_refs(
                    s.where_clause,
                ),
                _ => Seq::<ColV>::empty(),
            }
        },
        PgNode::ResTarget(t) => {
            proof {
                assert(decreases_to!(node => node->ResTarget_0));
                assert(decreases_to!(t => t.val));
            }
            opt_refs(t.val)
        },
        PgNode::NullTest { arg } => {
            proof {
                assert(decreases_to!(node => node->NullTest_arg));
            }
            opt_refs(arg)
        },
        PgNode::CaseExpr { args, defresult } => {
            proof {
                assert(decreases_to!(node => node->CaseExpr_args));
                assert(decreases_to!(node => node->CaseExpr_defresult));
            }
            list_refs(args, args@.len()) + opt_refs(defresult)
        },
        PgNode::CaseWhen { expr, result } => {
            proof {
                assert(decreases_to!(node => node->CaseWhen_expr));
                assert(decreases_to!(node => node->CaseWhen_result));
            }
            opt_refs(expr) + opt_refs(result)
        },
        PgNode::TypeCast { arg } => {
            proof {
                assert(decreases_to!(node => node->TypeCast_arg));
            }
            opt_refs(arg)
        },
        PgNode::CoalesceExpr { args } => {
            proof {
                assert(decreases_to!(node => node->CoalesceExpr_args));
            }
            list_refs(args, args@.len())
        },
        PgNode::MinMaxExpr { args } => {
            proof {
                assert(decreases_to!(node => node->MinMaxExpr_args));
            }
            list_refs(args, args@.len())
        },
        PgNode::BooleanTest { arg } => {
            proof {
                assert(decreases_to!(node => node->BooleanTest_arg));
            }
            opt_refs(arg)
        },
        PgNode::RowExpr { args } => {
            proof {
                assert(decreases_to!(node => node->RowExpr_args));
            }
            list_refs(args, args@.len())
        },
        PgNode::AArrayExpr { elements } => {
            proof {
                assert(decreases_to!(node => node->AArrayExpr_elements));
            }
            list_refs(elements, elements@.len())
        },
        PgNode::CollateClause { arg } => {
            proof {
                assert(decreases_to!(node => node->CollateClause_arg));
            }
            opt_refs(arg)
        },
        PgNode::AIndirection { arg } => {
            proof {
                assert(decreases_to!(node => node->AIndirection_arg));
            }
            opt_refs(arg)
        },
        _ => Seq::<ColV>::empty(),
    }
}

/// The column references of the first `k` nodes of a list.
pub open spec fn list_refs(v: Vec<PgNode>, k: nat) -> Seq<ColV>
    decreases v, k,
{
    if k == 0 || k > v@.len() {
        Seq::<ColV>::empty()
    } else {
        proof {
            assert(decreases_to!(v => v@));
            assert(decreases_to!(v@ => v@[k - 1]));
        }
        list_refs(v, (k - 1) as nat) + col_refs(v@[k - 1])
    }
}

/// `new` is `old` followed by the column references `cs`.
pub open spec fn appends(old: Seq<Expr>, new: Seq<Expr>, cs: Seq<ColV>) -> bool {
    &&& new.len() == old.len() + cs.len()
    &&& new.take(old.len() as int) == old
    &&& are_cols(new.skip(old.len() as int), cs)
}

proof fn lemma_appends_none(a: Seq<Expr>)
    ensures
        appends(a, a, Seq::<ColV>::empty()),
{
    assert(a.take(a.len() as int) =~= a);
}

proof fn lemma_appends_chain(a: Seq<Expr>, b: Seq<Expr>, c: Seq<Expr>, x: Seq<ColV>, y: Seq<ColV>)
    requires
        appends(a, b, x),
        appends(b, c, y),
    ensures
        appends(a, c, x + y),
{
    assert(c.take(a.len() as int) =~= b.take(a.len() as int));
    assert forall|i: int| 0 <= i < (x + y).len() implies is_col(
        #[trigger] c.skip(a.len() as int)[i],
        (x + y)[i],
    ) by {
        if i < x.len() {
            assert(c.skip(a.len() as int)[i] == b.skip(a.len() as int)[i]);
        } else {
            assert(c.skip(a.len() as int)[i] == c.skip(b.len() as int)[i - x.len()]);
        }
    }
}

/// The values of the `String` nodes of a list, in order.
pub fn string_values(fields: &Vec<PgNode>) -> (r: Vec<String>)
    ensures
        r.deep_view() == string_parts(fields@, fields@.len()),
{
    let mut r: Vec<String> = Vec::new();
    let mut i: usize = 0;
    while i < fields.len()
        invariant
            0 <= i <= fields@.len(),
            r.deep_view() == string_parts(fields@, i as nat),
        decreases fields@.len() - i,
    {
        let ghost before = r.deep_view();
        match &fields[i] {
            PgNode::String { sval } => {
                r.push(sval.clone());
                assert(r.deep_view() =~= before + seq![sval@]);
            },
            _ => {
                assert(before + Seq::<Seq<char>>::empty() =~= before);
            },
        }
        i += 1;
    }
    r
}

/// `a` + `sep` + `b`, as a new string.
fn join2(a: &str, sep: &str, b: &str) -> (r: String)
    ensures
        r@ == a@ + sep@ + b@,
{
    let mut v = chars_of(a);
    append_str(&mut v, sep);
    append_str(&mut v, b);
    string_from_chars(&v)
}

/// The column expression a `ColumnRef`'s fields name (see
/// `column_ref_col`), if any.
fn column_ref_expr(fields: &Vec<PgNode>) -> (r: Option<Expr>)
    ensures
        match r {
            Some(e) => column_ref_col(fields@).len() == 1 && is_col(e, column_ref_col(fields@)[0]),
            None => column_ref_col(fields@).len() == 0,
        },
{
    let parts = string_values(fields);
    let ghost p = parts.deep_view();
    let n = parts.len();
    if n == 0 || n > 3 {
        return None;
    }
    proof {
        assert(p[n - 1] == parts@[n - 1]@);
    }
    if parts[n - 1].as_str().is_empty() {
        return None;
    }
    let name = parts[n - 1].clone();
    let qualifier = if n == 1 {
        None
    } else if n == 2 {
        Some(parts[0].clone())
    } else {
        Some(join2(parts[0].as_str(), ".", parts[1].as_str()))
    };
    proof {
        reveal_strlit(".");
    }
    Some(Expr::Column { qualifier, name, range: TextRange::empty() })
}

/// Appends to `out` the column references in an optional child.
fn collect_opt(o: &Option<Box<PgNode>>, out: &mut Vec<Expr>)
    ensures
        appends(old(out)@, final(out)@, opt_refs(*o)),
    decreases o, 1nat,
{
    let ghost start = out@;
    match present_ref(o) {
        Some(n) => {
            proof {
                lemma_present_decreases(*o);
            }
            collect_column_refs(n, out);
        },
        None => {
            proof {
                lemma_appends_none(start);
            }
        },
    }
}

/// Appends to `out` the column references of each node of a list.
fn collect_list(v: &Vec<PgNode>, out: &mut Vec<Expr>)
    ensures
        appends(old(out)@, final(out)@, list_refs(*v, v@.len())),
    decreases v, 1nat,
{
    let ghost start = out@;
    proof {
        lemma_appends_none(start);
    }
    let mut i: usize = 0;
    while i < v.len()
        invariant
            0 <= i <= v@.len(),
            appends(start, out@, list_refs(*v, i as nat)),
        decreases v@.len() - i,
    {
        proof {
            assert(decreases_to!(v => v@));
            assert(decreases_to!(v@ => v@[i as int]));
        }
        let ghost before = out@;
        collect_column_refs(&v[i], out);
        proof {
            lemma_appends_chain(start, before, out@, list_refs(*v, i as nat), col_refs(v@[i as int]));
        }
        i += 1;
    }
}

/// Appends to `out`, as column expressions, every column reference
/// inside `node` (see `col_refs`).
pub fn collect_column_refs(node: &PgNode, out: &mut Vec<Expr>)
    ensures
        appends(old(out)@, final(out)@, col_refs(*node)),
    decreases node, 0nat,
{
    let ghost start = out@;
    match node {
        PgNode::ColumnRef { fields, .. } => {
            assert(col_refs(*node) == column_ref_col(fields@));
            match column_ref_expr(fields) {
                Some(e) => {
                    out.push(e);
                    assert(out@.take(start.len() as int) =~= start);
                    assert(out@.skip(start.len() as int) =~= seq![out@.last()]);
                },
                None => {
                    proof {
                        lemma_appends_none(start);
                    }
                },
            }
        },
        PgNode::AExpr { lexpr, rexpr } => {
            collect_opt(lexpr, out);
            let ghost mid = out@;
            collect_opt(rexpr, out);
            proof {
                lemma_appends_chain(start, mid, out@, opt_refs(*lexpr), opt_refs(*rexpr));
            }
        },
        PgNode::BoolExpr { args } => {
            collect_list(args, out);
        },
        PgNode::FuncCall { args } => {
            collect_list(args, out);
        },
        PgNode::List { items } => {
            collect_list(items, out);
        },
        PgNode::SubLink { testexpr, subselect } => {
            collect_opt(testexpr, out);
            let ghost mid = out@;
            match present_ref(subselect) {
                Some(PgNode::SelectStmt(s)) => {
                    proof {
                        lemma_present_decreases(*subselect);
                        let n = present(*subselect)->0;
                        assert(decreases_to!(n => n->SelectStmt_0));
                    }
                    collect_list(&s.target_list, out);
                    let ghost mid2 = out@;
                    collect_opt(&s.where_clause, out);
                    proof {
                        lemma_appends_chain(
                            mid,
                            mid2,
                            out@,
                            list_refs(s.target_list, s.target_list@.len()),
                            opt_refs(s.where_clause),
                        );
                        lemma_appends_chain(
                            start,
                            mid,
                            out@,
                            opt_refs(*testexpr),
                            list_refs(s.target_list, s.target_list@.len()) + opt_refs(s.where_clause),
                        );
                    }
                },
                _ => {
                    proof {
                        assert(opt_refs(*testexpr) + Seq::<ColV>::empty() =~= opt_refs(*testexpr));
                    }
                },
            }
        },
        PgNode::ResTarget(t) => {
            collect_opt(&t.val, out);
        },
        PgNode::NullTest { arg } => {
            collect_opt(arg, out);
        },
        PgNode::CaseExpr { args, defresult } => {
            collect_list(args, out);
            let ghost mid = out@;
            collect_opt(defresult, out);
            proof {
                lemma_appends_chain(start, mid, out@, list_refs(*args, args@.len()), opt_refs(*defresult));
            }
        },
        PgNode::CaseWhen { expr, result } => {
            collect_opt(expr, out);
            let ghost mid = out@;
            collect_opt(result, out);
            proof {
                lemma_appends_chain(start, mid, out@, opt_refs(*expr), opt_refs(*result));
            }
        },
        PgNode::TypeCast { arg } => {
            collect_opt(arg, out);
        },
        PgNode::CoalesceExpr { args } => {
            collect_list(args, out);
        },
        PgNode::MinMaxExpr { args } => {
            collect_list(args, out);
        },
        PgNode::BooleanTest { arg } => {
            collect_opt(arg, out);
        },
        PgNode::RowExpr { args } => {
            collect_list(args, out);
        },
        PgNode::AArrayExpr { elements } => {
            collect_list(elements, out);
        },
        PgNode::CollateClause { arg } => {
            collect_opt(arg, out);
        },
        PgNode::AIndirection { arg } => {
            collect_opt(arg, out);
        },
        _ => {
            proof {
                assert(col_refs(*node) =~= Seq::<ColV>::empty());
                lemma_appends_none(start);
            }
        },
    }
}

/// The flat list of the column references inside `node`, if any.
pub fn extract_column_refs_expr(node: Option<&PgNode>) -> (e: Expr)
    ensures
        is_col_list(e, node_refs(node)),
{
    let mut out: Vec<Expr> = Vec::new();
    if let Some(n) = node {
        collect_column_refs(n, &mut out);
        assert(out@ =~= out@.skip(0));
    }
    Expr::List(out)
}

/// The column references inside an optional node.
pub open spec fn node_refs(node: Option<&PgNode>) -> Seq<ColV> {
    match node {
        Some(n) => col_refs(*n),
        None => Seq::<ColV>::empty(),
    }
}

/// The number of bytes of `s` in UTF-8.
pub open spec fn byte_len(s: Seq<char>) -> nat {
    encode_utf8(s).len()
}

/// The name of an alias clause, when it is there and not empty.
pub open spec fn alias_name(a: Option<PgAlias>) -> Option<Seq<char>> {
    match a {
        Some(x) => if x.aliasname@.len() > 0 {
            Some(x.aliasname@)
        } else {
            None
        },
        None => None,
    }
}

/// The byte range of a range var's name token ends within `u32`.
pub open spec fn rangevar_fits(r: PgRangeVar) -> bool {
    r.location < 0 || r.location + name_offset(r) + byte_len(r.relname@) <= u32::MAX
}

/// How far the table-name token lies after a range var's location: past
/// `schema.` when there is a schema.
pub open spec fn name_offset(r: PgRangeVar) -> nat {
    if r.schemaname@.len() == 0 {
        0
    } else {
        byte_len(r.schemaname@) + 1
    }
}

/// The table reference a range var stands for: its schema when not
/// empty, its name and alias, and the range of just its table-name token,
/// which follows `schema.` at its location (the empty range when the
/// location is unknown).
pub open spec fn rangevar_ref(r: PgRangeVar) -> TableRefV {
    TableRefV {
        schema: if r.schemaname@.len() == 0 {
            None
        } else {
            Some(r.schemaname@)
        },
        name: r.relname@,
        alias: alias_name(r.alias),
        start: if r.location >= 0 {
            (r.location + name_offset(r)) as u32
        } else {
            0
        },
        end: if r.location >= 0 {
            (r.location + name_offset(r) + byte_len(r.relname@)) as u32
        } else {
            0
        },
    }
}

/// A synthetic table binding: schema `marker`, named and aliased by
/// `alias`, at the empty range.
pub open spec fn synthetic_ref(marker: Seq<char>, alias: Seq<char>) -> TableRefV {
    TableRefV { schema: Some(marker), name: alias, alias: Some(alias), start: 0, end: 0 }
}

/// The binding of a set-returning function in FROM, named by its alias.
pub open spec fn func_ref(alias: Seq<char>) -> TableRefV {
    synthetic_ref("<func>"@, alias)
}

/// The binding of a sub-select in FROM, named by its alias.
pub open spec fn subq_ref(alias: Seq<char>) -> TableRefV {
    synthetic_ref("<subq>"@, alias)
}

/// The views of a sequence of table references.
pub open spec fn table_views(ts: Seq<TableRef>) -> Seq<TableRefV> {
    ts.map_values(|t: TableRef| t@)
}

/// The alias name of an alias clause, when it is there and not empty.
pub fn alias_of(a: &Option<PgAlias>) -> (r: Option<String>)
    ensures
        r.deep_view() == alias_name(*a),
{
    match a {
        Some(x) => if x.aliasname.as_str().is_empty() {
            None
        } else {
            Some(x.aliasname.clone())
        },
        None => None,
    }
}

/// The table reference a range var stands for (see `rangevar_ref`).
pub fn rangevar_to_tableref(r: &PgRangeVar) -> (t: TableRef)
    requires
        rangevar_fits(*r),
    ensures
        t@ == rangevar_ref(*r),
{
    let schema = if r.schemaname.as_str().is_empty() {
        None
    } else {
        Some(r.schemaname.clone())
    };
    let alias = alias_of(&r.alias);
    let range = if r.location >= 0 {
        let skip: u32 = if r.schemaname.as_str().is_empty() {
            0
        } else {
            r.schemaname.as_str().len() as u32 + 1
        };
        let start = r.location as u32 + skip;
        let len = r.relname.as_str().len() as u32;
        TextRange::new(start, start + len)
    } else {
        TextRange::empty()
    };
    TableRef { schema, name: r.relname.clone(), alias, range }
}

/// A synthetic table binding (see `synthetic_ref`).
pub fn synthetic(marker: &str, alias: String) -> (t: TableRef)
    ensures
        t@ == synthetic_ref(marker@, alias@),
{
    TableRef { schema: Some(marker.to_owned()), name: alias.clone(), alias: Some(alias), range: TextRange::empty() }
}

/// The join kind of a protobuf `JoinType` number: left, right and full
/// joins as themselves, anti joins as left joins, and everything else
/// (inner, semi, unknown) as inner joins.
pub open spec fn join_kind_of(jt: i32) -> JoinKind {
    if jt == 2 || jt == 6 {
        JoinKind::Left
    } else if jt == 4 {
        JoinKind::Right
    } else if jt == 3 {
        JoinKind::Full
    } else {
        JoinKind::Inner
    }
}

/// Maps a protobuf `JoinType` number to the join kind (see `join_kind_of`).
pub fn join_kind(jt: i32) -> (k: JoinKind)
    ensures
        k == join_kind_of(jt),
{
    if jt == 2 {
        JoinKind::Left
    } else if jt == 4 {
        JoinKind::Right
    } else if jt == 3 {
        JoinKind::Full
    } else if jt == 6 {
        JoinKind::Left
    } else {
        JoinKind::Inner
    }
}

/// The column references of an optional child as a clause: none when
/// the child is absent, else the references inside it.
pub open spec fn opt_clause(o: Option<Box<PgNode>>) -> Option<Seq<ColV>> {
    match o {
        Some(b) => Some(col_refs(*b)),
        None => None,
    }
}

/// `e` is the clause `c` (see `opt_clause`).
pub open spec fn is_clause(e: Option<Expr>, c: Option<Seq<ColV>>) -> bool {
    match (e, c) {
        (Some(x), Some(cs)) => is_col_list(x, cs),
        (None, None) => true,
        _ => false,
    }
}

/// The clause expression of an optional child (see `opt_clause`).
pub fn clause_expr(o: &Option<Box<PgNode>>) -> (e: Option<Expr>)
    ensures
        is_clause(e, opt_clause(*o)),
{
    match o {
        Some(b) => Some(extract_column_refs_expr(Some(&**b))),
        None => None,
    }
}

/// A join as plain values: its kind, its table and its ON clause.
pub type JoinV = (JoinKind, TableRefV, Option<Seq<ColV>>);

/// `j` is the join `v`.
pub open spec fn is_join(j: JoinClause, v: JoinV) -> bool {
    &&& j.kind == v.0
    &&& j.table@ == v.1
    &&& is_clause(j.on, v.2)
}

/// `js` are the joins `vs`, in order.
pub open spec fn are_joins(js: Seq<JoinClause>, vs: Seq<JoinV>) -> bool {
    &&& js.len() == vs.len()
    &&& forall|i: int| 0 <= i < vs.len() ==> is_join(#[trigger] js[i], vs[i])
}

/// `new` is `old` followed by the joins `vs`.
pub open spec fn appends_joins(old: Seq<JoinClause>, new: Seq<JoinClause>, vs: Seq<JoinV>) -> bool {
    &&& new.len() == old.len() + vs.len()
    &&& new.take(old.len() as int) == old
    &&& are_joins(new.skip(old.len() as int), vs)
}

proof fn lemma_joins_none(a: Seq<JoinClause>)
    ensures
        appends_joins(a, a, Seq::<JoinV>::empty()),
{
    assert(a.take(a.len() as int) =~= a);
}

proof fn lemma_joins_chain(
    a: Seq<JoinClause>,
    b: Seq<JoinClause>,
    c: Seq<JoinClause>,
    x: Seq<JoinV>,
    y: Seq<JoinV>,
)
    requires
        appends_joins(a, b, x),
        appends_joins(b, c, y),
    ensures
        appends_joins(a, c, x + y),
{
    assert(c.take(a.len() as int) =~= b.take(a.len() as int));
    assert forall|i: int| 0 <= i < (x + y).len() implies is_join(
        #[trigger] c.skip(a.len() as int)[i],
        (x + y)[i],
    ) by {
        if i < x.len() {
            assert(c.skip(a.len() as int)[i] == b.skip(a.len() as int)[i]);
        } else {
            assert(c.skip(a.len() as int)[i] == c.skip(b.len() as int)[i - x.len()]);
        }
    }
}

pub proof fn lemma_join_larg_decreases(j: PgJoinExpr)
    ensures
        present(j.larg) matches Some(PgNode::JoinExpr(inner)) ==> decreases_to!(j => *inner),
{
    lemma_present_decreases(j.larg);
    if let Some(PgNode::JoinExpr(inner)) = present(j.larg) {
        let n = present(j.larg)->0;
        assert(decreases_to!(j => j.larg));
        assert(decreases_to!(n => n->JoinExpr_0));
    }
}

/// The tables the left side of a join adds to FROM: a range var, or an
/// aliased function or sub-select, or the FROM tables of a nested join on
/// the left. Each FROM table is bound once, whatever FROM holds already.
pub open spec fn join_from(j: PgJoinExpr) -> Seq<TableRefV>
    decreases j,
{
    proof {
        lemma_join_larg_decreases(j);
    }
    match present(j.larg) {
        Some(PgNode::RangeVar(r)) => seq![rangevar_ref(r)],
        Some(PgNode::JoinExpr(inner)) => join_from(*inner),
        Some(PgNode::RangeFunction { alias }) => match alias_name(alias) {
            Some(a) => seq![func_ref(a)],
            None => Seq::<TableRefV>::empty(),
        },
        Some(PgNode::RangeSubselect { alias }) => match alias_name(alias) {
            Some(a) => seq![subq_ref(a)],
            None => Seq::<TableRefV>::empty(),
        },
        _ => Seq::<TableRefV>::empty(),
    }
}

/// The join the right side of a join stands for: a range var, or an
/// aliased function or sub-select, with the join's kind and ON clause.
pub open spec fn right_join(j: PgJoinExpr) -> Seq<JoinV> {
    let k = join_kind_of(j.jointype);
    let on = opt_clause(j.quals);
    match present(j.rarg) {
        Some(PgNode::RangeVar(r)) => seq![(k, rangevar_ref(r), on)],
        Some(PgNode::RangeFunction { alias }) => match alias_name(alias) {
            Some(a) => seq![(k, func_ref(a), on)],
            None => Seq::<JoinV>::empty(),
        },
        Some(PgNode::RangeSubselect { alias }) => match alias_name(alias) {
            Some(a) => seq![(k, subq_ref(a), on)],
            None => Seq::<JoinV>::empty(),
        },
        _ => Seq::<JoinV>::empty(),
    }
}

/// The joins of a join tree, innermost first.
pub open spec fn join_joins(j: PgJoinExpr) -> Seq<JoinV>
    decreases j,
{
    proof {
        lemma_join_larg_decreases(j);
    }
    match present(j.larg) {
        Some(PgNode::JoinExpr(inner)) => join_joins(*inner) + right_join(j),
        _ => right_join(j),
    }
}

/// Every range var of a join tree has its name token within `u32`.
pub open spec fn join_fits(j: PgJoinExpr) -> bool
    decreases j,
{
    proof {
        lemma_join_larg_decreases(j);
    }
    &&& match present(j.larg) {
        Some(PgNode::RangeVar(r)) => rangevar_fits(r),
        Some(PgNode::JoinExpr(inner)) => join_fits(*inner),
        _ => true,
    }
    &&& match present(j.rarg) {
        Some(PgNode::RangeVar(r)) => rangevar_fits(r),
        _ => true,
    }
}

/// Unfolds a join tree into FROM tables and joins: the left side may be
/// a nested join (chained joins), the right side is one table.
pub fn walk_join(j: &PgJoinExpr, from: &mut Vec<TableRef>, joins: &mut Vec<JoinClause>)
    requires
        join_fits(*j),
    ensures
        table_views(final(from)@) == table_views(old(from)@) + join_from(*j),
        appends_joins(old(joins)@, final(joins)@, join_joins(*j)),
    decreases j,
{
    let ghost from0 = from@;
    let ghost joins0 = joins@;
    proof {
        lemma_join_larg_decreases(*j);
    }
    match present_ref(&j.larg) {
        Some(PgNode::RangeVar(r)) => {
            let t = rangevar_to_tableref(r);
            let ghost tv = t@;
            from.push(t);
            assert(table_views(from@) =~= table_views(from0) + seq![tv]);
        },
        Some(PgNode::JoinExpr(inner)) => {
            walk_join(inner, from, joins);
        },
        Some(PgNode::RangeFunction { alias }) => {
            match alias_of(alias) {
                Some(name) => {
                    let t = synthetic("<func>", name);
                    let ghost tv = t@;
                    from.push(t);
                    assert(table_views(from@) =~= table_views(from0) + seq![tv]);
                },
                None => {
                    assert(table_views(from@) =~= table_views(from0) + join_from(*j));
                },
            }
        },
        Some(PgNode::RangeSubselect { alias }) => {
            match alias_of(alias) {
                Some(name) => {
                    let t = synthetic("<subq>", name);
                    let ghost tv = t@;
                    from.push(t);
                    assert(table_views(from@) =~= table_views(from0) + seq![tv]);
                },
                None => {
                    assert(table_views(from@) =~= table_views(from0) + join_from(*j));
                },
            }
        },
        _ => {
            assert(table_views(from@) =~= table_views(from0) + join_from(*j));
        },
    }
    let ghost joins1 = joins@;
    proof {
        if !(present(j.larg) matches Some(PgNode::JoinExpr(_))) {
            lemma_joins_none(joins0);
        }
    }
    let k = join_kind(j.jointype);
    match present_ref(&j.rarg) {
        Some(PgNode::RangeVar(r)) => {
            let table = rangevar_to_tableref(r);
            joins.push(JoinClause { kind: k, table, on: clause_expr(&j.quals) });
        },
        Some(PgNode::RangeFunction { alias }) => {
            if let Some(name) = alias_of(alias) {
                joins.push(JoinClause { kind: k, table: synthetic("<func>", name), on: clause_expr(&j.quals) });
            }
        },
        Some(PgNode::RangeSubselect { alias }) => {
            if let Some(name) = alias_of(alias) {
                joins.push(JoinClause { kind: k, table: synthetic("<subq>", name), on: clause_expr(&j.quals) });
            }
        },
        _ => {},
    }
    proof {
        assert(joins@.take(joins1.len() as int) =~= joins1);
        assert(joins@.skip(joins1.len() as int) =~= joins@.subrange(joins1.len() as int, joins@.len() as int));
        assert(appends_joins(joins1, joins@, right_join(*j)));
        if present(j.larg) matches Some(PgNode::JoinExpr(_)) {
            lemma_joins_chain(joins0, joins1, joins@, join_joins(*(present(j.larg)->0->JoinExpr_0)), right_join(*j));
        } else {
            lemma_joins_chain(joins0, joins1, joins@, Seq::<JoinV>::empty(), right_join(*j));
            assert(Seq::<JoinV>::empty() + right_join(*j) =~= right_join(*j));
        }
    }
}

/// A projection as plain values.
pub enum ProjV {
    Star,
    QualifiedStar(Seq<char>),
    /// A column reference at the byte range `start..end`.
    Column { qualifier: Option<Seq<char>>, name: Seq<char>, start: u32, end: u32, alias: Option<Seq<char>> },
    /// The column references inside an expression.
    Refs { cols: Seq<ColV>, alias: Option<Seq<char>> },
    /// An expression not modelled, with empty text.
    Blank { alias: Option<Seq<char>> },
}

/// `p` is the projection `v`.
pub open spec fn is_proj(p: Projection, v: ProjV) -> bool {
    match v {
        ProjV::Star => p is Star,
        ProjV::QualifiedStar(q) => p matches Projection::QualifiedStar(s) && s@ == q,
        ProjV::Column { qualifier, name, start, end, alias } => {
            &&& p matches Projection::Expr { expr, alias: a }
            &&& a.deep_view() == alias
            &&& expr matches Expr::Column { qualifier: q, name: n, range }
            &&& q.deep_view() == qualifier
            &&& n@ == name
            &&& range.start_spec() == start
            &&& range.end_spec() == end
        },
        ProjV::Refs { cols, alias } => {
            &&& p matches Projection::Expr { expr, alias: a }
            &&& a.deep_view() == alias
            &&& is_col_list(expr, cols)
        },
        ProjV::Blank { alias } => {
            &&& p matches Projection::Expr { expr, alias: a }
            &&& a.deep_view() == alias
            &&& expr matches Expr::Other(t)
            &&& t@.len() == 0
        },
    }
}

/// The text of one field of a column reference: an identifier, `*`, or
/// nothing for anything else.
pub open spec fn ref_part(n: PgNode) -> Seq<char> {
    match n {
        PgNode::String { sval } => sval@,
        PgNode::AStar => "*"@,
        _ => Seq::<char>::empty(),
    }
}

/// The texts of the fields of a column reference.
pub open spec fn ref_parts(fields: Seq<PgNode>) -> Seq<Seq<char>> {
    fields.map_values(|n: PgNode| ref_part(n))
}

/// The total number of UTF-8 bytes of some texts.
pub open spec fn bytes_total(ps: Seq<Seq<char>>) -> nat
    decreases ps.len(),
{
    if ps.len() == 0 {
        0
    } else {
        bytes_total(ps.drop_last()) + byte_len(ps.last())
    }
}

/// The length of a dotted reference `a.b.c` spelled from its parts, and
/// at least one.
pub open spec fn ref_span(ps: Seq<Seq<char>>) -> nat {
    let n = bytes_total(ps) + if ps.len() > 0 {
        (ps.len() - 1) as nat
    } else {
        0
    };
    if n > 0 {
        n
    } else {
        1
    }
}

/// A column reference's byte range ends within `u32`.
pub open spec fn cref_fits(fields: Seq<PgNode>, location: i32) -> bool {
    location < 0 || location + ref_span(ref_parts(fields)) <= u32::MAX
}

/// The projection a column reference stands for: `*`, `q.*`, a column
/// `name` or `q.name` spanning the reference from its location, or an
/// unmodelled expression for other shapes.
pub open spec fn cref_proj(fields: Seq<PgNode>, location: i32, alias: Option<Seq<char>>) -> ProjV {
    let ps = ref_parts(fields);
    let start: u32 = if location >= 0 {
        location as u32
    } else {
        0
    };
    let end: u32 = if location >= 0 {
        (location + ref_span(ps)) as u32
    } else {
        0
    };
    if ps.len() == 1 && ps[0] == "*"@ {
        ProjV::Star
    } else if ps.len() == 2 && ps[1] == "*"@ {
        ProjV::QualifiedStar(ps[0])
    } else if ps.len() == 1 {
        ProjV::Column { qualifier: None, name: ps[0], start, end, alias }
    } else if ps.len() == 2 {
        ProjV::Column { qualifier: Some(ps[0]), name: ps[1], start, end, alias }
    } else {
        ProjV::Blank { alias }
    }
}

/// The name of a result target, when not empty.
pub open spec fn target_alias(t: PgResTarget) -> Option<Seq<char>> {
    if t.name@.len() == 0 {
        None
    } else {
        Some(t.name@)
    }
}

/// The projection a result target stands for: a column reference as by
/// `cref_proj`, else the column references inside its value.
pub open spec fn target_proj(t: PgResTarget) -> ProjV {
    match present(t.val) {
        Some(PgNode::ColumnRef { fields, location }) => cref_proj(fields@, location, target_alias(t)),
        Some(n) => ProjV::Refs { cols: col_refs(n), alias: target_alias(t) },
        None => ProjV::Refs { cols: Seq::<ColV>::empty(), alias: target_alias(t) },
    }
}

/// A result target's column reference, if it is one, has its byte range
/// within `u32`.
pub open spec fn target_fits(t: PgResTarget) -> bool {
    match present(t.val) {
        Some(PgNode::ColumnRef { fields, location }) => cref_fits(fields@, location),
        _ => true,
    }
}

pub proof fn lemma_bytes_total_take(ps: Seq<Seq<char>>, j: int)
    requires
        0 <= j <= ps.len(),
    ensures
        bytes_total(ps.take(j)) <= bytes_total(ps),
    decreases ps.len() - j,
{
    if j < ps.len() {
        lemma_bytes_total_take(ps, j + 1);
        assert(ps.take(j + 1).drop_last() =~= ps.take(j));
    } else {
        assert(ps.take(j) =~= ps);
    }
}

/// The texts of the fields of a column reference (see `ref_parts`).
pub(crate) fn ref_part_values(fields: &Vec<PgNode>) -> (r: Vec<String>)
    ensures
        r.deep_view() == ref_parts(fields@),
{
    let mut r: Vec<String> = Vec::new();
    let mut i: usize = 0;
    while i < fields.len()
        invariant
            0 <= i <= fields@.len(),
            r.deep_view() == ref_parts(fields@).take(i as int),
        decreases fields@.len() - i,
    {
        let part = match &fields[i] {
            PgNode::String { sval } => sval.clone(),
            PgNode::AStar => "*".to_owned(),
            _ => String::new(),
        };
        assert(part@ == ref_part(fields@[i as int]));
        let ghost before = r.deep_view();
        r.push(part);
        assert(r.deep_view() =~= before.push(part@));
        assert(r.deep_view() =~= ref_parts(fields@).take(i + 1));
        i += 1;
    }
    assert(ref_parts(fields@).take(i as int) =~= ref_parts(fields@));
    r
}

/// The projection a column reference stands for (see `cref_proj`).
pub fn column_ref_to_projection(fields: &Vec<PgNode>, location: i32, alias: Option<String>) -> (p: Projection)
    requires
        cref_fits(fields@, location),
    ensures
        is_proj(p, cref_proj(fields@, location, alias.deep_view())),
{
    let parts = ref_part_values(fields);
    let ghost ps = parts.deep_view();
    let n = parts.len();
    let range = if location >= 0 {
        let start = location as u32;
        let mut total: u32 = 0;
        let mut j: usize = 0;
        while j < n
            invariant
                0 <= j <= n == parts@.len() == ps.len(),
                ps == parts.deep_view(),
                total == bytes_total(ps.take(j as int)),
                location >= 0,
                location + ref_span(ps) <= u32::MAX,
            decreases n - j,
        {
            proof {
                lemma_bytes_total_take(ps, j + 1);
                assert(ps.take(j + 1).drop_last() =~= ps.take(j as int));
                assert(ps[j as int] == parts@[j as int]@);
            }
            total = total + parts[j].as_str().len() as u32;
            j += 1;
        }
        assert(ps.take(n as int) =~= ps);
        let dots: u32 = if n > 0 {
            (n - 1) as u32
        } else {
            0
        };
        let len = total + dots;
        let len1 = if len > 0 {
            len
        } else {
            1
        };
        TextRange::new(start, start + len1)
    } else {
        TextRange::empty()
    };
    proof {
        if n > 0 {
            assert(ps[0] == parts@[0]@);
            assert(ps[n - 1] == parts@[n - 1]@);
        }
    }
    if n == 1 && str_eq(parts[0].as_str(), "*") {
        Projection::Star
    } else if n == 2 && str_eq(parts[1].as_str(), "*") {
        Projection::QualifiedStar(parts[0].clone())
    } else if n == 1 {
        Projection::Expr { expr: Expr::Column { qualifier: None, name: parts[0].clone(), range }, alias }
    } else if n == 2 {
        Projection::Expr {
            expr: Expr::Column { qualifier: Some(parts[0].clone()), name: parts[1].clone(), range },
            alias,
        }
    } else {
        Projection::Expr { expr: Expr::Other(String::new()), alias }
    }
}

/// The projection one item of a SELECT target list stands for (see
/// `target_proj`).
pub fn target_to_projection(t: &PgResTarget) -> (p: Projection)
    requires
        target_fits(*t),
    ensures
        is_proj(p, target_proj(*t)),
{
    let alias = if t.name.as_str().is_empty() {
        None
    } else {
        Some(t.name.clone())
    };
    match present_ref(&t.val) {
        None => Projection::Expr { expr: Expr::List(Vec::new()), alias },
        Some(PgNode::ColumnRef { fields, location }) => column_ref_to_projection(fields, *location, alias),
        Some(other) => Projection::Expr { expr: extract_column_refs_expr(Some(other)), alias },
    }
}

/// The references of the first `k` items of `v`, where `v` is `v1`
/// followed by `v2`.
proof fn lemma_list_refs_split(v: Vec<PgNode>, v1: Vec<PgNode>, v2: Vec<PgNode>, k: nat)
    requires
        v@ == v1@ + v2@,
        k <= v@.len(),
    ensures
        k <= v1@.len() ==> list_refs(v, k) == list_refs(v1, k),
        k > v1@.len() ==> list_refs(v, k) == list_refs(v1, v1@.len()) + list_refs(v2, (k - v1@.len()) as nat),
    decreases k,
{
    if k > 0 {
        lemma_list_refs_split(v, v1, v2, (k - 1) as nat);
        if k <= v1@.len() {
            assert(v@[k - 1] == v1@[k - 1]);
        } else {
            assert(v@[k - 1] == v2@[k - v1@.len() - 1]);
            if k - 1 == v1@.len() {
                assert(list_refs(v2, 0) == Seq::<ColV>::empty());
                assert(list_refs(v1, v1@.len()) + Seq::<ColV>::empty() =~= list_refs(v1, v1@.len()));
            }
        }
    }
}

/// Every column reference inside a list (an `IN (...)` list, the bounds
/// of a `BETWEEN`) is collected, wherever it stands: the references of a
/// list that is `v1` followed by `v2` are those of `v1` followed by those
/// of `v2`.
pub proof fn law_list_refs_concatenate(v: Vec<PgNode>, v1: Vec<PgNode>, v2: Vec<PgNode>)
    requires
        v@ == v1@ + v2@,
    ensures
        col_refs(PgNode::List { items: v }) == col_refs(PgNode::List { items: v1 }) + col_refs(
            PgNode::List { items: v2 },
        ),
{
    lemma_list_refs_split(v, v1, v2, v@.len());
    if v2@.len() == 0 {
        assert(list_refs(v2, 0) == Seq::<ColV>::empty());
        assert(list_refs(v1, v1@.len()) + Seq::<ColV>::empty() =~= list_refs(v1, v1@.len()));
    }
}

/// A list of one item holds exactly that item's column references.
pub proof fn law_list_of_one_item(v: Vec<PgNode>, x: PgNode)
    requires
        v@ == seq![x],
    ensures
        col_refs(PgNode::List { items: v }) == col_refs(x),
{
    assert(v@[0] == x);
    assert(list_refs(v, 0) == Seq::<ColV>::empty());
    assert(Seq::<ColV>::empty() + col_refs(x) =~= col_refs(x));
}

/// Every node that holds a list of sub-expressions collects the
/// references of that list as a plain list does: boolean connectives,
/// function arguments, `COALESCE`, `GREATEST`/`LEAST`, row and array
/// constructors.
pub proof fn law_argument_lists_collect_like_lists(w: Vec<PgNode>)
    ensures
        col_refs(PgNode::BoolExpr { args: w }) == col_refs(PgNode::List { items: w }),
        col_refs(PgNode::FuncCall { args: w }) == col_refs(PgNode::List { items: w }),
        col_refs(PgNode::CoalesceExpr { args: w }) == col_refs(PgNode::List { items: w }),
        col_refs(PgNode::MinMaxExpr { args: w }) == col_refs(PgNode::List { items: w }),
        col_refs(PgNode::RowExpr { args: w }) == col_refs(PgNode::List { items: w }),
        col_refs(PgNode::AArrayExpr { elements: w }) == col_refs(PgNode::List { items: w }),
{
}

} // verus!

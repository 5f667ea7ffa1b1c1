//! The general laws of rendering, stated once over all queries and proved
//! against the fragment model.
use vstd::prelude::*;
use crate::ast::{Compare, ConditionTree, Expression, ExpressionKind, Query};
use crate::renderer::{
    dec_digit, dec_str, frag_params, frag_text, frags_compare, frags_conditions, frags_expr,
    frags_expr_list, frags_in, frags_kind, frags_query, frags_row, render_params, render_text,
    Frag,
};

verus! {

/// Rendering is deterministic: the same query value renders to the same text
/// and the same parameters, every time.
pub proof fn lemma_render_deterministic(q1: Query, q2: Query)
    requires
        q1 == q2,
    ensures
        render_text(q1) == render_text(q2),
        render_params(q1) == render_params(q2),
{
}

/// How often a character occurs in a text.
pub open spec fn count_char(s: Seq<char>, c: char) -> nat
    decreases s,
{
    if s.len() == 0 {
        0
    } else {
        (if s[0] == c { 1nat } else { 0nat }) + count_char(s.drop_first(), c)
    }
}

/// No literal text fragment holds the placeholder character.
pub open spec fn dollar_free(fs: Seq<Frag>) -> bool {
    forall|i: int| 0 <= i < fs.len()
        ==> ((#[trigger] fs[i]) matches Frag::Str(s) ==> count_char(s, '$') == 0)
}

proof fn lemma_count_char_concat(a: Seq<char>, b: Seq<char>, c: char)
    ensures
        count_char(a + b, c) == count_char(a, c) + count_char(b, c),
    decreases a,
{
    if a.len() == 0 {
        assert(a + b =~= b);
        assert(count_char(a, c) == 0);
    } else {
        assert((a + b).drop_first() =~= a.drop_first() + b);
        assert((a + b)[0] == a[0]);
        lemma_count_char_concat(a.drop_first(), b, c);
        assert(count_char(a + b, c)
            == (if a[0] == c { 1nat } else { 0nat }) + count_char(a.drop_first() + b, c));
    }
}

proof fn lemma_dec_str_no_dollar(n: nat)
    ensures
        count_char(dec_str(n), '$') == 0,
    decreases n,
{
    if n < 10 {
        assert(dec_str(n) =~= seq![dec_digit(n)]);
        assert(seq![dec_digit(n)].drop_first() =~= Seq::<char>::empty());
        assert(count_char(Seq::<char>::empty(), '$') == 0);
        assert(dec_digit(n) != '$');
    } else {
        lemma_dec_str_no_dollar(n / 10);
        lemma_count_char_concat(dec_str(n / 10), seq![dec_digit(n % 10)], '$');
        assert(seq![dec_digit(n % 10)].drop_first() =~= Seq::<char>::empty());
        assert(count_char(Seq::<char>::empty(), '$') == 0);
        assert(dec_digit(n % 10) != '$');
        assert(count_char(seq![dec_digit(n % 10)], '$') == 0);
    }
}

proof fn lemma_frag_parity(fs: Seq<Frag>, k: nat)
    requires
        dollar_free(fs),
    ensures
        count_char(frag_text(fs, k), '$') == frag_params(fs).len(),
    decreases fs,
{
    if fs.len() == 0 {
    } else {
        assert(fs[0] == fs[0]);
        assert(dollar_free(fs.drop_first())) by {
            assert(forall|i: int| 0 <= i < fs.drop_first().len()
                ==> fs.drop_first()[i] == fs[i + 1]);
        }
        match fs[0] {
            Frag::Str(s) => {
                lemma_frag_parity(fs.drop_first(), k);
                lemma_count_char_concat(s, frag_text(fs.drop_first(), k), '$');
            },
            Frag::Param(v) => {
                lemma_frag_parity(fs.drop_first(), (k + 1) as nat);
                lemma_dec_str_no_dollar(k + 1);
                lemma_count_char_concat(seq!['$'] + dec_str(k + 1), frag_text(fs.drop_first(), (k + 1) as nat), '$');
                lemma_count_char_concat(seq!['$'], dec_str(k + 1), '$');
                assert(seq!['$'].drop_first() =~= Seq::<char>::empty());
                assert(count_char(Seq::<char>::empty(), '$') == 0);
                assert(count_char(seq!['$'], '$') == 1);
                assert(count_char(seq!['$'] + dec_str(k + 1), '$') == 1);
                assert(frag_text(fs, k) == (seq!['$'] + dec_str(k + 1)) + frag_text(fs.drop_first(), (k + 1) as nat));
                assert(frag_params(fs).len() == 1 + frag_params(fs.drop_first()).len());
            },
        }
    }
}

/// Placeholder and parameter parity: when no literal text of the query holds
/// the placeholder character itself, the number of `$` placeholders in the
/// rendered text equals the number of parameters handed back.
pub proof fn lemma_placeholder_parameter_parity(q: Query)
    requires
        dollar_free(frags_query(q)),
    ensures
        count_char(render_text(q), '$') == render_params(q).len(),
{
    lemma_frag_parity(frags_query(q), 0);
}

/// An `IN` over an empty literal row collapses to the constant false
/// condition `1=0`; `NOT IN` collapses to the constant true `1=1`.
pub proof fn lemma_in_empty_collapses(c: Compare)
    requires
        c matches Compare::In(l, r) && r.kind matches ExpressionKind::Row(row)
            && row.values@.len() == 0,
    ensures
        frags_compare(c) == seq![Frag::Str("1=0"@)],
{
}

/// See [`lemma_in_empty_collapses`]: the `NOT IN` side.
pub proof fn lemma_not_in_empty_collapses(c: Compare)
    requires
        c matches Compare::NotIn(l, r) && r.kind matches ExpressionKind::Row(row)
            && row.values@.len() == 0,
    ensures
        frags_compare(c) == seq![Frag::Str("1=1"@)],
{
}

/// An `IN` of a one-column row against a one-row value set flattens to a
/// direct `=` between the column and the single literal row, never a
/// multi-row `IN`.
pub proof fn lemma_in_singleton_flattens(c: Compare)
    requires
        c matches Compare::In(l, r),
        c->In_0.kind matches ExpressionKind::Row(cols) && cols.values@.len() == 1,
        c->In_1.kind matches ExpressionKind::Values(vs) && vs.rows@.len() == 1,
    ensures
        frags_compare(c) == frags_expr(c->In_0.kind->Row_0.values@[0])
            + seq![Frag::Str(" = "@)]
            + frags_row(c->In_1.kind->Values_0.rows@[0]),
{
    assert(frags_compare(c) == frags_in(c, false));
}

/// An `AND` list renders flat: three operands render inside one pair of
/// parentheses, joined by `AND`, with no nesting.
pub proof fn lemma_and_renders_flat(t: ConditionTree, a: Expression, b: Expression, c: Expression)
    requires
        t matches ConditionTree::And(es) && es@ == seq![a, b, c],
    ensures
        frags_conditions(t) == seq![Frag::Str("("@)]
            + (frags_expr(a) + seq![Frag::Str(" AND "@)]
                + (frags_expr(b) + seq![Frag::Str(" AND "@)] + frags_expr(c)))
            + seq![Frag::Str(")"@)],
{
    let es = seq![a, b, c];
    assert(es.drop_first() =~= seq![b, c]);
    assert(seq![b, c].drop_first() =~= seq![c]);
    assert(frags_expr_list(seq![c], " AND "@) == frags_expr(c));
    assert(frags_expr_list(seq![b, c], " AND "@)
        == frags_expr(b) + seq![Frag::Str(" AND "@)] + frags_expr(c));
    assert(frags_expr_list(es, " AND "@)
        == frags_expr(a) + seq![Frag::Str(" AND "@)] + frags_expr_list(seq![b, c], " AND "@));
    assert(frags_expr(a) + seq![Frag::Str(" AND "@)]
        + (frags_expr(b) + seq![Frag::Str(" AND "@)] + frags_expr(c))
        =~= frags_expr(a) + seq![Frag::Str(" AND "@)]
        + (frags_expr(b) + seq![Frag::Str(" AND "@)] + frags_expr(c)));
    assert(frags_expr_list(es, " AND "@)
        =~= frags_expr(a) + seq![Frag::Str(" AND "@)]
            + (frags_expr(b) + seq![Frag::Str(" AND "@)] + frags_expr(c)));
}

/// An expression without an alias renders as its bare shape: no `AS` is
/// emitted.
pub proof fn lemma_no_alias_no_as(e: Expression)
    requires
        e.alias is None,
    ensures
        frags_expr(e) == frags_kind(e.kind),
{
    assert(frags_expr(e) =~= frags_kind(e.kind));
}

} // verus!

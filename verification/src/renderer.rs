//! What rendering means.
//!
//! A query renders to a sequence of fragments: literal text and parameter
//! placeholders. The functions here say, fragment by fragment, what text and
//! which parameters each node of the tree stands for; the concrete renderer
//! is proved against them. A placeholder's number is its position among all
//! placeholders of the whole query, counted from one.
mod postgres;

pub use postgres::Postgres;

use vstd::prelude::*;
use crate::ast::{
    Column, CommonTableExpression, Compare, ConditionTree, Delete, Expression, ExpressionKind,
    Function, FunctionType, Insert, Join, JoinData, JsonCompare, JsonPath, JsonType, OnConflict,
    Order, OrderDefinition, Query, Row, Select, SqlOp, Table, TableType, Update, ValueV, Values,
};

verus! {

/// One fragment of rendered output: either literal text, or a placeholder
/// carrying the model of the value bound to it.
pub enum Frag {
    Str(Seq<char>),
    Param(ValueV),
}

/// The decimal digit for `d` < 10.
pub open spec fn dec_digit(d: nat) -> char {
    if d == 0 { '0' } else if d == 1 { '1' } else if d == 2 { '2' }
    else if d == 3 { '3' } else if d == 4 { '4' } else if d == 5 { '5' }
    else if d == 6 { '6' } else if d == 7 { '7' } else if d == 8 { '8' }
    else { '9' }
}

/// `n` written out in decimal, without a sign.
pub open spec fn dec_str(n: nat) -> Seq<char>
    decreases n,
{
    if n < 10 {
        seq![dec_digit(n)]
    } else {
        dec_str(n / 10) + seq![dec_digit(n % 10)]
    }
}

/// The values bound by the fragments, in placeholder order.
pub open spec fn frag_params(fs: Seq<Frag>) -> Seq<ValueV>
    decreases fs,
{
    if fs.len() == 0 {
        Seq::empty()
    } else {
        match fs[0] {
            Frag::Str(_) => frag_params(fs.drop_first()),
            Frag::Param(v) => seq![v] + frag_params(fs.drop_first()),
        }
    }
}

/// The text of the fragments, with `k` placeholders already emitted before
/// them: each placeholder renders as `$` and its one-based overall position.
pub open spec fn frag_text(fs: Seq<Frag>, k: nat) -> Seq<char>
    decreases fs,
{
    if fs.len() == 0 {
        Seq::empty()
    } else {
        match fs[0] {
            Frag::Str(s) => s + frag_text(fs.drop_first(), k),
            Frag::Param(_) => seq!['$'] + dec_str(k + 1) + frag_text(fs.drop_first(), k + 1),
        }
    }
}

/// Parameters of concatenated fragments: the two lists, one after the other.
pub broadcast proof fn lemma_frag_params_concat(a: Seq<Frag>, b: Seq<Frag>)
    ensures
        #[trigger] frag_params(a + b) == frag_params(a) + frag_params(b),
    decreases a,
{
    if a.len() == 0 {
        assert(a + b =~= b);
        assert(frag_params(a) + frag_params(b) =~= frag_params(b));
    } else {
        assert((a + b).drop_first() =~= a.drop_first() + b);
        lemma_frag_params_concat(a.drop_first(), b);
        match a[0] {
            Frag::Str(_) => {},
            Frag::Param(v) => {
                assert(seq![v] + (frag_params(a.drop_first()) + frag_params(b))
                    =~= (seq![v] + frag_params(a.drop_first())) + frag_params(b));
            },
        }
    }
}

/// Text of concatenated fragments: the first part numbered from `k`, the
/// second from `k` plus the parameters the first part bound.
pub broadcast proof fn lemma_frag_text_concat(a: Seq<Frag>, b: Seq<Frag>, k: nat)
    ensures
        #[trigger] frag_text(a + b, k) == frag_text(a, k) + frag_text(b, k + frag_params(a).len()),
    decreases a,
{
    if a.len() == 0 {
        assert(a + b =~= b);
        assert(frag_text(a, k) + frag_text(b, k) =~= frag_text(b, k));
    } else {
        assert((a + b).drop_first() =~= a.drop_first() + b);
        match a[0] {
            Frag::Str(s) => {
                lemma_frag_text_concat(a.drop_first(), b, k);
                assert(s + (frag_text(a.drop_first(), k) + frag_text(b, k + frag_params(a.drop_first()).len()))
                    =~= (s + frag_text(a.drop_first(), k)) + frag_text(b, k + frag_params(a).len()));
            },
            Frag::Param(v) => {
                lemma_frag_text_concat(a.drop_first(), b, (k + 1) as nat);
                assert(frag_params(a).len() == 1 + frag_params(a.drop_first()).len());
                assert(seq!['$'] + dec_str(k + 1) + (frag_text(a.drop_first(), (k + 1) as nat) + frag_text(b, k + 1 + frag_params(a.drop_first()).len()))
                    =~= (seq!['$'] + dec_str(k + 1) + frag_text(a.drop_first(), (k + 1) as nat)) + frag_text(b, k + frag_params(a).len()));
            },
        }
    }
}

/// A lone text fragment binds nothing.
pub broadcast proof fn lemma_frag_params_str(s: Seq<char>)
    ensures
        #[trigger] frag_params(seq![Frag::Str(s)]) == Seq::<ValueV>::empty(),
{
    reveal_with_fuel(frag_params, 2);
    assert(seq![Frag::Str(s)].drop_first() =~= Seq::<Frag>::empty());
    assert(frag_params(seq![Frag::Str(s)]) =~= Seq::<ValueV>::empty());
}

/// A lone placeholder binds exactly its value.
pub broadcast proof fn lemma_frag_params_param(v: ValueV)
    ensures
        #[trigger] frag_params(seq![Frag::Param(v)]) == seq![v],
{
    reveal_with_fuel(frag_params, 2);
    assert(seq![Frag::Param(v)].drop_first() =~= Seq::<Frag>::empty());
    assert(frag_params(seq![Frag::Param(v)]) =~= seq![v]);
}

/// A lone text fragment renders as its text.
pub broadcast proof fn lemma_frag_text_str(s: Seq<char>, k: nat)
    ensures
        #[trigger] frag_text(seq![Frag::Str(s)], k) == s,
{
    reveal_with_fuel(frag_text, 2);
    assert(seq![Frag::Str(s)].drop_first() =~= Seq::<Frag>::empty());
    assert(frag_text(seq![Frag::Str(s)], k) =~= s);
}

/// A lone placeholder renders as `$` and the next position.
pub broadcast proof fn lemma_frag_text_param(v: ValueV, k: nat)
    ensures
        #[trigger] frag_text(seq![Frag::Param(v)], k) == seq!['$'] + dec_str(k + 1),
{
    reveal_with_fuel(frag_text, 2);
    assert(seq![Frag::Param(v)].drop_first() =~= Seq::<Frag>::empty());
    assert(frag_text(seq![Frag::Param(v)], k) =~= seq!['$'] + dec_str(k + 1));
}

/// An identifier between the dialect's quoting characters.
pub open spec fn quoted(s: Seq<char>) -> Seq<char> {
    seq!['"'] + s + seq!['"']
}

/// A possibly database-qualified identifier, each part quoted.
pub open spec fn ident_frags(database: Option<String>, name: Seq<char>) -> Seq<Frag> {
    match database {
        Some(d) => seq![Frag::Str(quoted(d@) + seq!['.'] + quoted(name))],
        None => seq![Frag::Str(quoted(name))],
    }
}

/// The `AS` suffix an alias renders to; nothing when there is none.
pub open spec fn alias_frags(alias: Option<String>) -> Seq<Frag> {
    match alias {
        Some(a) => seq![Frag::Str(" AS "@)] + seq![Frag::Str(quoted(a@))],
        None => Seq::empty(),
    }
}

/// The direction suffix of one `ORDER BY` entry.
pub open spec fn order_text(o: Order) -> Seq<char> {
    match o {
        Order::Asc => " ASC"@,
        Order::Desc => " DESC"@,
        Order::AscNullsFirst => "ASC NULLS FIRST"@,
        Order::AscNullsLast => "ASC NULLS LAST"@,
        Order::DescNullsFirst => "DESC NULLS FIRST"@,
        Order::DescNullsLast => "DESC NULLS LAST"@,
    }
}

/// The format names `encode` accepts.
pub open spec fn encode_format_text(f: crate::ast::EncodeFormat) -> Seq<char> {
    match f {
        crate::ast::EncodeFormat::Base64 => "'base64'"@,
        crate::ast::EncodeFormat::Escape => "'escape'"@,
        crate::ast::EncodeFormat::Hex => "'hex'"@,
    }
}

/// The `LIMIT` and `OFFSET` clauses: both values are handed over as
/// parameters; nothing is rendered when neither is set.
pub open spec fn limit_offset_frags(limit: Option<u32>, offset: Option<u32>) -> Seq<Frag> {
    match (limit, offset) {
        (Some(l), Some(o)) => seq![Frag::Str(" LIMIT "@)] + seq![Frag::Param(ValueV::Int(l as int))]
            + seq![Frag::Str(" OFFSET "@)] + seq![Frag::Param(ValueV::Int(o as int))],
        (None, Some(o)) => seq![Frag::Str(" OFFSET "@)] + seq![Frag::Param(ValueV::Int(o as int))],
        (Some(l), None) => seq![Frag::Str(" LIMIT "@)] + seq![Frag::Param(ValueV::Int(l as int))],
        (None, None) => Seq::empty(),
    }
}

/// The bracketed column-name list of an `INSERT` or conflict target: bare
/// names, quoted, separated by commas.
pub open spec fn bare_columns_frags(cols: Seq<Column>, i: int) -> Seq<Frag>
    decreases cols.len() - i,
{
    if i < 0 || i >= cols.len() {
        Seq::empty()
    } else {
        seq![Frag::Str(quoted(cols[i].name@))]
            + (if i + 1 < cols.len() { seq![Frag::Str(","@)] } else { Seq::<Frag>::empty() })
            + bare_columns_frags(cols, i + 1)
    }
}

/// The default projection for one source table: its alias, else its plain
/// name (a joined table shows its base name, not its join chain), suffixed
/// with `.*`; a nested query or row set without an alias shows a bare `*`.
pub open spec fn projection_table_frags(t: Table) -> Seq<Frag> {
    match t.alias {
        Some(a) => seq![Frag::Str(quoted(a@))] + seq![Frag::Str(".*"@)],
        None => match t.typ {
            TableType::Table(name) => ident_frags(t.database, name@) + seq![Frag::Str(".*"@)],
            TableType::JoinedTable(jt) => ident_frags(t.database, jt.0@) + seq![Frag::Str(".*"@)],
            _ => seq![Frag::Str("*"@)],
        },
    }
}

/// The text of a possibly database-qualified identifier.
pub open spec fn ident_text(database: Option<String>, name: Seq<char>) -> Seq<char> {
    match database {
        Some(d) => quoted(d@) + seq!['.'] + quoted(name),
        None => quoted(name),
    }
}

/// The default projection over all source tables, comma-separated.
pub open spec fn projection_frags(ts: Seq<Table>, i: int) -> Seq<Frag>
    decreases ts.len() - i,
{
    if i < 0 || i >= ts.len() {
        Seq::empty()
    } else {
        (if i > 0 { seq![Frag::Str(", "@)] } else { Seq::<Frag>::empty() })
            + projection_table_frags(ts[i])
            + projection_frags(ts, i + 1)
    }
}

/// How many assignments an `UPDATE` renders: its column and value lists run
/// in parallel, up to the shorter one.
pub open spec fn assign_count(u: Update) -> int {
    if u.columns@.len() <= u.values@.len() {
        u.columns@.len() as int
    } else {
        u.values@.len() as int
    }
}

/// What a query renders to.
pub open spec fn frags_query(q: Query) -> Seq<Frag>
    decreases q, 0int,
{
    match q {
        Query::Select(s) => frags_select(*s),
        Query::Insert(i) => frags_insert(*i),
        Query::Update(u) => frags_update(*u),
        Query::Delete(d) => frags_delete(*d),
    }
}

/// What a `SELECT` statement renders to: `WITH` prefix, `SELECT`, `DISTINCT`
/// when asked, the projection (explicit columns, else `table.*` per source
/// table), `FROM` with the source tables and their joins, then the `WHERE`,
/// `GROUP BY`, `HAVING`, `ORDER BY`, `LIMIT`/`OFFSET` sections, each omitted
/// when empty. A `SELECT` without source tables renders its columns alone.
pub open spec fn frags_select(s: Select) -> Seq<Frag>
    decreases s, 1int, 1int,
{
    (if s.ctes@.len() > 0 {
        seq![Frag::Str("WITH "@)] + frags_cte_list(s.ctes@, 0) + seq![Frag::Str(" "@)]
    } else {
        Seq::<Frag>::empty()
    }) + seq![Frag::Str("SELECT "@)]
        + (if s.distinct { seq![Frag::Str("DISTINCT "@)] } else { Seq::<Frag>::empty() })
        + (if s.tables@.len() > 0 {
            frags_select_core(s)
        } else if s.columns@.len() == 0 {
            seq![Frag::Str(" *"@)]
        } else {
            frags_expr_list(s.columns@, ", "@)
        })
}

/// The body of a `SELECT` with source tables: the projection, the `FROM`
/// list with its joins, and the filtering, grouping, ordering and windowing
/// sections; see [`frags_select`].
pub open spec fn frags_select_core(s: Select) -> Seq<Frag>
    decreases s, 1int, 0int,
{
    (if s.columns@.len() == 0 {
        projection_frags(s.tables@, 0)
    } else {
        frags_expr_list(s.columns@, ", "@)
    }) + seq![Frag::Str(" FROM "@)]
        + frags_table_list(s.tables@)
        + frags_join_list(s.joins@)
        + frags_select_tail(s)
}

/// The filtering, grouping, ordering and windowing sections of a `SELECT`;
/// see [`frags_select`].
pub open spec fn frags_select_tail(s: Select) -> Seq<Frag>
    decreases s, 0int, 1int,
{
    keyword_conditions_frags(s.conditions, " WHERE "@)
        + grouping_frags(s)
        + keyword_conditions_frags(s.having, " HAVING "@)
        + ordering_section_frags(s)
        + limit_offset_frags(s.limit, s.offset)
}

/// An optional condition tree after its keyword; nothing when absent.
pub open spec fn keyword_conditions_frags(c: Option<ConditionTree>, kw: Seq<char>) -> Seq<Frag>
    decreases c, 4int, 0int,
{
    match c {
        Some(t) => seq![Frag::Str(kw)] + frags_conditions(t),
        None => Seq::empty(),
    }
}

/// The `GROUP BY` section; nothing when the grouping is empty.
pub open spec fn grouping_frags(s: Select) -> Seq<Frag>
    decreases s, 0int, 0int,
{
    if s.grouping.0@.len() > 0 {
        seq![Frag::Str(" GROUP BY "@)] + frags_expr_list(s.grouping.0@, ", "@)
    } else {
        Seq::empty()
    }
}

/// The `ORDER BY` section; nothing when the ordering is empty.
pub open spec fn ordering_section_frags(s: Select) -> Seq<Frag>
    decreases s, 0int, 0int,
{
    if s.ordering.0@.len() > 0 {
        seq![Frag::Str(" ORDER BY "@)] + frags_ordering(s.ordering.0@)
    } else {
        Seq::empty()
    }
}

/// The conflict clause of an `INSERT`; nothing when none was set.
pub open spec fn on_conflict_frags(c: Option<OnConflict>) -> Seq<Frag>
    decreases c, 3int, 0int,
{
    match c {
        Some(OnConflict::DoNothing) => seq![Frag::Str(" ON CONFLICT DO NOTHING"@)],
        Some(OnConflict::Update(u, cols)) => seq![Frag::Str(" ON CONFLICT ("@)]
            + bare_columns_frags(cols@, 0) + seq![Frag::Str(") DO "@)] + frags_upsert(u),
        None => Seq::empty(),
    }
}

/// The target table of an `INSERT`; nothing when none was given.
pub open spec fn insert_table_frags(t: Option<Table>) -> Seq<Frag>
    decreases t, 2int, 0int,
{
    match t {
        Some(tb) => seq![Frag::Str("INTO "@)] + frags_table(tb, true),
        None => Seq::empty(),
    }
}

/// What the `WITH` list renders to: each name quoted, `AS`, and the named
/// query in parentheses, comma-separated.
pub open spec fn frags_cte_list(cs: Seq<CommonTableExpression>, i: int) -> Seq<Frag>
    decreases cs, 2int, cs.len() - i,
{
    if i < 0 || i >= cs.len() {
        Seq::empty()
    } else {
        seq![Frag::Str(quoted(cs[i].name@))] + seq![Frag::Str(" AS ("@)]
            + frags_query(cs[i].query)
            + seq![Frag::Str(")"@)]
            + (if i + 1 < cs.len() { seq![Frag::Str(", "@)] } else { Seq::<Frag>::empty() })
            + frags_cte_list(cs, i + 1)
    }
}

/// What an expression list renders to, separated by `sep`.
pub open spec fn frags_expr_list(es: Seq<Expression>, sep: Seq<char>) -> Seq<Frag>
    decreases es, 2int,
{
    if es.len() == 0 {
        Seq::empty()
    } else if es.len() == 1 {
        frags_expr(es[0])
    } else {
        frags_expr(es[0]) + seq![Frag::Str(sep)] + frags_expr_list(es.drop_first(), sep)
    }
}

/// What a column list renders to, separated by `sep`; used by `RETURNING`.
pub open spec fn frags_column_list(cols: Seq<Column>, sep: Seq<char>) -> Seq<Frag>
    decreases cols, 2int,
{
    if cols.len() == 0 {
        Seq::empty()
    } else if cols.len() == 1 {
        frags_column(cols[0])
    } else {
        frags_column(cols[0]) + seq![Frag::Str(sep)] + frags_column_list(cols.drop_first(), sep)
    }
}

/// What the source-table list of a `FROM` renders to: each table with its
/// alias, comma-separated.
pub open spec fn frags_table_list(ts: Seq<Table>) -> Seq<Frag>
    decreases ts, 2int,
{
    if ts.len() == 0 {
        Seq::empty()
    } else if ts.len() == 1 {
        frags_table(ts[0], true)
    } else {
        frags_table(ts[0], true) + seq![Frag::Str(", "@)] + frags_table_list(ts.drop_first())
    }
}

/// What a table reference renders to: an identifier, a literal row set, a
/// parenthesized nested query, or an identifier followed by its own join
/// chain; with `AS` and its alias when `include_alias` is set.
pub open spec fn frags_table(t: Table, include_alias: bool) -> Seq<Frag>
    decreases t, 1int,
{
    (match t.typ {
        TableType::Table(name) => ident_frags(t.database, name@),
        TableType::Values(vals) => frags_values(vals),
        TableType::Query(s) => seq![Frag::Str("("@)] + frags_select(*s) + seq![Frag::Str(")"@)],
        TableType::JoinedTable(jt) => ident_frags(t.database, jt.0@) + frags_join_list(jt.1@),
    }) + (if include_alias { alias_frags(t.alias) } else { Seq::<Frag>::empty() })
}

/// What a join list renders to: each join introduced by its keyword.
pub open spec fn frags_join_list(js: Seq<Join>) -> Seq<Frag>
    decreases js, 2int,
{
    if js.len() == 0 {
        Seq::empty()
    } else {
        (match js[0] {
            Join::Inner(d) => seq![Frag::Str(" INNER JOIN "@)] + frags_join_data(d),
            Join::Left(d) => seq![Frag::Str(" LEFT JOIN "@)] + frags_join_data(d),
            Join::Right(d) => seq![Frag::Str(" RIGHT JOIN "@)] + frags_join_data(d),
            Join::Full(d) => seq![Frag::Str(" FULL JOIN "@)] + frags_join_data(d),
        }) + frags_join_list(js.drop_first())
    }
}

/// What one join renders to: `LATERAL` when asked, the joined table with its
/// alias, `ON`, and the join conditions.
pub open spec fn frags_join_data(d: JoinData) -> Seq<Frag>
    decreases d, 1int,
{
    (if d.lateral { seq![Frag::Str(" LATERAL "@)] } else { Seq::<Frag>::empty() })
        + frags_table(d.table, true)
        + seq![Frag::Str(" ON "@)]
        + frags_conditions(d.conditions)
}

/// What a condition tree renders to. `AND`/`OR` lists and `NOT` wrap
/// themselves in parentheses and join their operands flat; a bare single leaf
/// does not; the two constant leaves render `1=1` and `1=0`.
pub open spec fn frags_conditions(t: ConditionTree) -> Seq<Frag>
    decreases t, 3int,
{
    match t {
        ConditionTree::And(es) => seq![Frag::Str("("@)] + frags_expr_list(es@, " AND "@) + seq![Frag::Str(")"@)],
        ConditionTree::Or(es) => seq![Frag::Str("("@)] + frags_expr_list(es@, " OR "@) + seq![Frag::Str(")"@)],
        ConditionTree::Not(e) => seq![Frag::Str("(NOT "@)] + frags_expr(*e) + seq![Frag::Str(")"@)],
        ConditionTree::Single(e) => frags_expr(*e),
        ConditionTree::NoCondition => seq![Frag::Str("1=1"@)],
        ConditionTree::NegativeCondition => seq![Frag::Str("1=0"@)],
        ConditionTree::Exists(tb) => seq![Frag::Str("(EXISTS ("@)] + frags_table(*tb, false) + seq![Frag::Str("))"@)],
    }
}

/// What an expression renders to: its shape, then its alias when it has one.
pub open spec fn frags_expr(e: Expression) -> Seq<Frag>
    decreases e, 2int,
{
    frags_kind(e.kind) + alias_frags(e.alias)
}

/// What each expression shape renders to.
pub open spec fn frags_kind(k: ExpressionKind) -> Seq<Frag>
    decreases k, 1int,
{
    match k {
        ExpressionKind::Parameterized(v) => seq![Frag::Param(v@)],
        ExpressionKind::Raw(s) => seq![Frag::Str(s@)],
        ExpressionKind::Column(c) => frags_column(*c),
        ExpressionKind::Table(t) => frags_table(*t, false),
        ExpressionKind::Row(r) => frags_row(r),
        ExpressionKind::Selection(s) => seq![Frag::Str("("@)] + frags_select(*s) + seq![Frag::Str(")"@)],
        ExpressionKind::Function(f) => frags_function(*f),
        ExpressionKind::Asterisk(t) => match t {
            Some(tb) => frags_table(*tb, false) + seq![Frag::Str(".*"@)],
            None => seq![Frag::Str("*"@)],
        },
        ExpressionKind::Op(op) => frags_op(*op),
        ExpressionKind::ConditionTree(ct) => frags_conditions(ct),
        ExpressionKind::Compare(c) => frags_compare(c),
        ExpressionKind::Value(e) => frags_expr(*e),
        ExpressionKind::Values(vs) => frags_values(vs),
        ExpressionKind::Default => seq![Frag::Str("DEFAULT"@)],
    }
}

/// What a column reference renders to: its table, a dot, the quoted name,
/// then its alias when it has one.
pub open spec fn frags_column(c: Column) -> Seq<Frag>
    decreases c, 1int,
{
    (match c.table {
        Some(t) => frags_table(*t, false) + seq![Frag::Str("."@)] + seq![Frag::Str(quoted(c.name@))],
        None => seq![Frag::Str(quoted(c.name@))],
    }) + alias_frags(c.alias)
}

/// What a row renders to: its values in parentheses, comma-separated.
pub open spec fn frags_row(r: Row) -> Seq<Frag>
    decreases r, 3int,
{
    seq![Frag::Str("("@)] + frags_expr_list(r.values@, ","@) + seq![Frag::Str(")"@)]
}

/// What a literal row set renders to: its rows in parentheses,
/// comma-separated.
pub open spec fn frags_values(vs: Values) -> Seq<Frag>
    decreases vs, 3int,
{
    seq![Frag::Str("("@)] + frags_row_list(vs.rows@, ","@) + seq![Frag::Str(")"@)]
}

/// What a row list renders to, separated by `sep`.
pub open spec fn frags_row_list(rows: Seq<Row>, sep: Seq<char>) -> Seq<Frag>
    decreases rows, 4int,
{
    if rows.len() == 0 {
        Seq::empty()
    } else if rows.len() == 1 {
        frags_row(rows[0])
    } else {
        frags_row(rows[0]) + seq![Frag::Str(sep)] + frags_row_list(rows.drop_first(), sep)
    }
}

/// What an arithmetic or string operation renders to, in parentheses.
pub open spec fn frags_op(op: SqlOp) -> Seq<Frag>
    decreases op, 1int,
{
    match op {
        SqlOp::Add(l, r) => seq![Frag::Str("("@)] + frags_expr(l) + seq![Frag::Str(" + "@)] + frags_expr(r) + seq![Frag::Str(")"@)],
        SqlOp::Sub(l, r) => seq![Frag::Str("("@)] + frags_expr(l) + seq![Frag::Str(" - "@)] + frags_expr(r) + seq![Frag::Str(")"@)],
        SqlOp::Mul(l, r) => seq![Frag::Str("("@)] + frags_expr(l) + seq![Frag::Str(" * "@)] + frags_expr(r) + seq![Frag::Str(")"@)],
        SqlOp::Div(l, r) => seq![Frag::Str("("@)] + frags_expr(l) + seq![Frag::Str(" / "@)] + frags_expr(r) + seq![Frag::Str(")"@)],
        SqlOp::Rem(l, r) => seq![Frag::Str("("@)] + frags_expr(l) + seq![Frag::Str(" % "@)] + frags_expr(r) + seq![Frag::Str(")"@)],
        SqlOp::Append(l, r) => seq![Frag::Str("("@)] + frags_expr(l) + seq![Frag::Str(" || "@)] + frags_expr(r) + seq![Frag::Str(")"@)],
        SqlOp::JsonDeleteAtPath(l, r) => seq![Frag::Str("("@)] + frags_expr(l) + seq![Frag::Str(" #- "@)] + frags_expr(r) + seq![Frag::Str(")"@)],
    }
}

/// The explicit text cast `LIKE` needs when its left side is a bare column:
/// the dialect compares strings only and does not cast implicitly.
pub open spec fn like_cast_frags(left: Expression) -> Seq<Frag> {
    if left.kind is Column {
        seq![Frag::Str("::text"@)]
    } else {
        Seq::empty()
    }
}

/// What a comparison renders to. `IN` and `NOT IN` are rewritten before the
/// generic fallback, in this priority order: an empty literal row on the
/// right collapses to `1=0` (`1=1` for `NOT IN`); a literal value set with
/// zero rows collapses the same way; a one-column row against a one-row value
/// set flattens to `=` (`<>`) against that row; a single scalar parameter on
/// the right renders as `=` (`<>`); anything else renders as `IN` (`NOT IN`).
pub open spec fn frags_compare(c: Compare) -> Seq<Frag>
    decreases c, 5int,
{
    match c {
        Compare::Equals(l, r) => frags_expr(*l) + seq![Frag::Str(" = "@)] + frags_expr(*r),
        Compare::NotEquals(l, r) => frags_expr(*l) + seq![Frag::Str(" <> "@)] + frags_expr(*r),
        Compare::LessThan(l, r) => frags_expr(*l) + seq![Frag::Str(" < "@)] + frags_expr(*r),
        Compare::LessThanOrEquals(l, r) => frags_expr(*l) + seq![Frag::Str(" <= "@)] + frags_expr(*r),
        Compare::GreaterThan(l, r) => frags_expr(*l) + seq![Frag::Str(" > "@)] + frags_expr(*r),
        Compare::GreaterThanOrEquals(l, r) => frags_expr(*l) + seq![Frag::Str(" >= "@)] + frags_expr(*r),
        Compare::In(_, _) => frags_in(c, false),
        Compare::NotIn(_, _) => frags_in(c, true),
        Compare::Like(l, r) => frags_expr(*l) + like_cast_frags(*l) + seq![Frag::Str(" LIKE "@)] + frags_expr(*r),
        Compare::NotLike(l, r) => frags_expr(*l) + like_cast_frags(*l) + seq![Frag::Str(" NOT LIKE "@)] + frags_expr(*r),
        Compare::Null(e) => frags_expr(*e) + seq![Frag::Str(" IS NULL"@)],
        Compare::NotNull(e) => frags_expr(*e) + seq![Frag::Str(" IS NOT NULL"@)],
        Compare::Between(v, l, r) => frags_expr(*v) + seq![Frag::Str(" BETWEEN "@)] + frags_expr(*l)
            + seq![Frag::Str(" AND "@)] + frags_expr(*r),
        Compare::NotBetween(v, l, r) => frags_expr(*v) + seq![Frag::Str(" NOT BETWEEN "@)] + frags_expr(*l)
            + seq![Frag::Str(" AND "@)] + frags_expr(*r),
        Compare::Raw(l, op, r) => frags_expr(*l) + seq![Frag::Str(" "@)] + seq![Frag::Str(op@)]
            + seq![Frag::Str(" "@)] + frags_expr(*r),
        Compare::JsonCompare(j) => frags_json_compare(j),
        Compare::Any(e) => seq![Frag::Str("ANY("@)] + frags_expr(*e) + seq![Frag::Str(")"@)],
        Compare::All(e) => seq![Frag::Str("ALL("@)] + frags_expr(*e) + seq![Frag::Str(")"@)],
    }
}

/// The `IN`/`NOT IN` rewrite table; see [`frags_compare`]. Defined for the
/// `In` and `NotIn` shapes; empty on any other.
pub open spec fn frags_in(c: Compare, negate: bool) -> Seq<Frag>
    decreases c, 4int,
{
    let collapse = if negate { seq![Frag::Str("1=1"@)] } else { seq![Frag::Str("1=0"@)] };
    let pair = match c {
        Compare::In(l, r) => Some((l, r)),
        Compare::NotIn(l, r) => Some((l, r)),
        _ => None,
    };
    if pair is None {
        Seq::empty()
    } else {
    let lr = pair->0;
    let left = *lr.0;
    let right = *lr.1;
    if right.kind is Row && right.kind->Row_0.values@.len() == 0 {
        collapse
    } else if left.kind is Row && right.kind is Values && right.kind->Values_0.rows@.len() == 0 {
        collapse
    } else if left.kind is Row && left.kind->Row_0.values@.len() == 1
        && right.kind is Values && right.kind->Values_0.rows@.len() == 1 {
        frags_expr(left.kind->Row_0.values@[0])
            + (if negate { seq![Frag::Str(" <> "@)] } else { seq![Frag::Str(" = "@)] })
            + frags_row(right.kind->Values_0.rows@[0])
    } else if right.kind is Parameterized {
        frags_expr(left)
            + (if negate { seq![Frag::Str(" <> "@)] } else { seq![Frag::Str(" = "@)] })
            + seq![Frag::Param(right.kind->Parameterized_0@)]
    } else if left.kind is Row && right.kind is Values {
        frags_row(left.kind->Row_0)
            + (if negate { seq![Frag::Str(" NOT IN "@)] } else { seq![Frag::Str(" IN "@)] })
            + frags_values(right.kind->Values_0)
    } else {
        frags_expr(left)
            + (if negate { seq![Frag::Str(" NOT IN "@)] } else { seq![Frag::Str(" IN "@)] })
            + frags_expr(right)
    }
    }
}

/// What the JSON and array comparisons render to.
pub open spec fn frags_json_compare(j: JsonCompare) -> Seq<Frag>
    decreases j, 5int,
{
    match j {
        JsonCompare::ArrayContains(l, r) => frags_expr(*l) + seq![Frag::Str(" @> "@)] + frags_expr(*r),
        JsonCompare::ArrayContained(l, r) => frags_expr(*l) + seq![Frag::Str(" <@ "@)] + frags_expr(*r),
        JsonCompare::ArrayOverlaps(l, r) => frags_expr(*l) + seq![Frag::Str(" && "@)] + frags_expr(*r),
        JsonCompare::ArrayNotContains(l, r) => seq![Frag::Str("( NOT "@)] + frags_expr(*l)
            + seq![Frag::Str(" @> "@)] + frags_expr(*r) + seq![Frag::Str(" )"@)],
        JsonCompare::TypeEquals(l, t) => seq![Frag::Str("JSONB_TYPEOF("@)] + frags_expr(*l)
            + seq![Frag::Str(") = "@)] + frags_json_type(t),
        JsonCompare::TypeNotEquals(l, t) => seq![Frag::Str("JSONB_TYPEOF("@)] + frags_expr(*l)
            + seq![Frag::Str(") != "@)] + frags_json_type(t),
    }
}

/// What a JSON type stands for on the right of a type comparison: the type
/// name as a parameter, or the introspected type of another column.
pub open spec fn frags_json_type(t: JsonType) -> Seq<Frag>
    decreases t, 5int,
{
    match t {
        JsonType::Array => seq![Frag::Param(ValueV::Text("array"@))],
        JsonType::Boolean => seq![Frag::Param(ValueV::Text("boolean"@))],
        JsonType::Number => seq![Frag::Param(ValueV::Text("number"@))],
        JsonType::Object => seq![Frag::Param(ValueV::Text("object"@))],
        JsonType::String => seq![Frag::Param(ValueV::Text("string"@))],
        JsonType::Null => seq![Frag::Param(ValueV::Text("null"@))],
        JsonType::ColumnRef(c) => seq![Frag::Str("JSONB_TYPEOF("@)] + frags_column(*c)
            + seq![Frag::Str("::jsonb)"@)],
    }
}

/// What one `ORDER BY` entry list renders to, comma-separated, each entry an
/// expression and its direction suffix.
pub open spec fn frags_ordering(pairs: Seq<OrderDefinition>) -> Seq<Frag>
    decreases pairs, 3int,
{
    if pairs.len() == 0 {
        Seq::empty()
    } else {
        frags_expr(pairs[0].0)
            + (match pairs[0].1 {
                Some(o) => seq![Frag::Str(order_text(o))],
                None => Seq::<Frag>::empty(),
            })
            + (if pairs.len() > 1 { seq![Frag::Str(", "@)] } else { Seq::<Frag>::empty() })
            + frags_ordering(pairs.drop_first())
    }
}

/// What the keys of a JSON path render to: each key handed over as a text
/// parameter, comma-separated.
pub open spec fn frags_path_list(path: Seq<String>, i: int) -> Seq<Frag>
    decreases path.len() - i,
{
    if i < 0 || i >= path.len() {
        Seq::empty()
    } else {
        seq![Frag::Param(ValueV::Text(path[i]@))]
            + (if i + 1 < path.len() { seq![Frag::Str(", "@)] } else { Seq::<Frag>::empty() })
            + frags_path_list(path, i + 1)
    }
}

/// What the key and value pairs of `json_build_object` render to: each key a
/// single-quoted literal, its value an expression, comma-separated.
pub open spec fn frags_build_object_list(values: Seq<(String, Expression)>, i: int) -> Seq<Frag>
    decreases values, 5int, values.len() - i,
{
    if i < 0 || i >= values.len() {
        Seq::empty()
    } else {
        seq![Frag::Str("'"@)] + seq![Frag::Str(values[i].0@)] + seq![Frag::Str("', "@)]
            + frags_expr(values[i].1)
            + (if i + 1 < values.len() { seq![Frag::Str(", "@)] } else { Seq::<Frag>::empty() })
            + frags_build_object_list(values, i + 1)
    }
}

/// What a function call renders to.
pub open spec fn frags_function(f: Function) -> Seq<Frag>
    decreases f, 6int,
{
    frags_function_type(f.typ_) + alias_frags(f.alias)
}

/// What each function kind renders to, before the alias.
pub open spec fn frags_function_type(t: FunctionType) -> Seq<Frag>
    decreases t, 6int,
{
    (match t {
        FunctionType::Count(c) => if c.exprs@.len() == 0 {
            seq![Frag::Str("COUNT(*)"@)]
        } else {
            seq![Frag::Str("COUNT("@)] + frags_expr_list(c.exprs@, ", "@) + seq![Frag::Str(")"@)]
        },
        FunctionType::AggregateToString(a) => seq![Frag::Str("ARRAY_TO_STRING(ARRAY_AGG("@)]
            + frags_expr(*a.value) + seq![Frag::Str(")','"@)] + seq![Frag::Str(")"@)],
        FunctionType::RowToJson(r) => seq![Frag::Str("ROW_TO_JSON("@)] + frags_table(r.expr, false)
            + seq![Frag::Str(")"@)],
        FunctionType::Average(a) => seq![Frag::Str("AVG("@)] + frags_column(a.column) + seq![Frag::Str(")"@)],
        FunctionType::Sum(s) => seq![Frag::Str("SUM("@)] + frags_expr(*s.expr) + seq![Frag::Str(")"@)],
        FunctionType::Lower(l) => seq![Frag::Str("LOWER("@)] + frags_expr(*l.expression) + seq![Frag::Str(")"@)],
        FunctionType::Upper(u) => seq![Frag::Str("UPPER("@)] + frags_expr(*u.expression) + seq![Frag::Str(")"@)],
        FunctionType::Minimum(m) => seq![Frag::Str("MIN("@)] + frags_column(m.column) + seq![Frag::Str(")"@)],
        FunctionType::Maximum(m) => seq![Frag::Str("MAX("@)] + frags_column(m.column) + seq![Frag::Str(")"@)],
        FunctionType::Coalesce(c) => seq![Frag::Str("COALESCE("@)] + frags_expr_list(c.exprs@, ", "@)
            + seq![Frag::Str(")"@)],
        FunctionType::JsonExtract(j) => match j.path {
            JsonPath::Array(path) => seq![Frag::Str("("@)] + frags_expr(*j.column)
                + (if j.extract_as_string { seq![Frag::Str("#>>"@)] } else { seq![Frag::Str("#>"@)] })
                + seq![Frag::Str("ARRAY["@)] + frags_path_list(path@, 0) + seq![Frag::Str("]::text[]"@)]
                + seq![Frag::Str(")"@)]
                + (if j.extract_as_string { Seq::<Frag>::empty() } else { seq![Frag::Str("::jsonb"@)] }),
            JsonPath::String(_) => Seq::empty(),
        },
        FunctionType::JsonExtractFirstArrayElem(j) => seq![Frag::Str("("@)] + frags_expr(*j.expr)
            + seq![Frag::Str("->0)"@)],
        FunctionType::JsonExtractLastArrayElem(j) => seq![Frag::Str("("@)] + frags_expr(*j.expr)
            + seq![Frag::Str("->-1)"@)],
        FunctionType::JsonUnquote(j) => seq![Frag::Str("("@)] + frags_expr(*j.expr)
            + seq![Frag::Str("#>>ARRAY[]::text[])"@)],
        FunctionType::ToJsonb(t) => seq![Frag::Str("to_jsonb("@)] + frags_table(t.table, false)
            + seq![Frag::Str(".*)"@)],
        FunctionType::JsonAgg(j) => seq![Frag::Str("json_agg("@)]
            + (if j.distinct { seq![Frag::Str("DISTINCT "@)] } else { Seq::<Frag>::empty() })
            + frags_expr(j.expression)
            + (match j.order_by {
                Some(o) => seq![Frag::Str(" ORDER BY "@)] + frags_ordering(o.0@),
                None => Seq::<Frag>::empty(),
            })
            + seq![Frag::Str(")"@)],
        FunctionType::Encode(e) => seq![Frag::Str("encode("@)] + frags_expr(e.expression)
            + seq![Frag::Str(", "@)] + seq![Frag::Str(encode_format_text(e.format))] + seq![Frag::Str(")"@)],
        FunctionType::JsonBuildObject(j) => seq![Frag::Str("json_build_object("@)]
            + frags_build_object_list(j.values@, 0) + seq![Frag::Str(")"@)],
        FunctionType::Concat(c) => seq![Frag::Str("("@)] + frags_expr_list(c.exprs@, " || "@)
            + seq![Frag::Str(")"@)],
    })
}

/// What the assignment list of an `UPDATE` renders to, from position `i` on:
/// `column = value` pairs, comma-separated, over the parallel lists up to the
/// shorter one.
pub open spec fn frags_assignments(u: Update, i: int) -> Seq<Frag>
    decreases u, 1int, assign_count(u) - i,
{
    if i < 0 || i >= assign_count(u) {
        Seq::empty()
    } else {
        frags_column(u.columns@[i]) + seq![Frag::Str(" = "@)] + frags_expr(u.values@[i])
            + (if i + 1 < assign_count(u) { seq![Frag::Str(", "@)] } else { Seq::<Frag>::empty() })
            + frags_assignments(u, i + 1)
    }
}

/// What the `RETURNING` clause renders to: nothing unless columns were asked
/// for and the list is not empty.
pub open spec fn returning_frags(returning: Option<Vec<Column>>) -> Seq<Frag>
    decreases returning, 3int,
{
    match returning {
        Some(cols) => if cols@.len() > 0 {
            seq![Frag::Str(" RETURNING "@)] + frags_column_list(cols@, ", "@)
        } else {
            Seq::empty()
        },
        None => Seq::empty(),
    }
}

/// What an `UPDATE` statement renders to: the table, the assignments, then
/// the `WHERE` and `RETURNING` clauses when present.
pub open spec fn frags_update(u: Update) -> Seq<Frag>
    decreases u, 2int,
{
    seq![Frag::Str("UPDATE "@)] + frags_table(u.table, true) + seq![Frag::Str(" SET "@)]
        + frags_assignments(u, 0)
        + (match u.conditions {
            Some(c) => seq![Frag::Str(" WHERE "@)] + frags_conditions(c),
            None => Seq::<Frag>::empty(),
        })
        + returning_frags(u.returning)
}

/// What the conflict-resolution `UPDATE` of an upsert renders to: only `SET`,
/// the assignments and the `WHERE`, since it nests inside the `INSERT`'s
/// conflict clause and carries no table of its own.
pub open spec fn frags_upsert(u: Update) -> Seq<Frag>
    decreases u, 2int,
{
    seq![Frag::Str("UPDATE "@)] + seq![Frag::Str("SET "@)] + frags_assignments(u, 0)
        + (match u.conditions {
            Some(c) => seq![Frag::Str(" WHERE "@)] + frags_conditions(c),
            None => Seq::<Frag>::empty(),
        })
}

/// What a `DELETE` statement renders to: the table, then the `WHERE` clause
/// when present.
pub open spec fn frags_delete(d: Delete) -> Seq<Frag>
    decreases d, 1int,
{
    seq![Frag::Str("DELETE FROM "@)] + frags_table(d.table, true)
        + (match d.conditions {
            Some(c) => seq![Frag::Str(" WHERE "@)] + frags_conditions(c),
            None => Seq::<Frag>::empty(),
        })
}

/// What an `INSERT` statement renders to: the table when given, the values —
/// an empty row stands for `DEFAULT VALUES`, a row or a literal row set
/// brings the bracketed column list first, any other expression renders in
/// parentheses — then the conflict clause and `RETURNING`.
pub open spec fn frags_insert(ins: Insert) -> Seq<Frag>
    decreases ins, 3int, 1int,
{
    seq![Frag::Str("INSERT "@)]
        + insert_table_frags(ins.table)
        + frags_insert_values(ins)
        + on_conflict_frags(ins.on_conflict)
        + returning_frags(ins.returning)
}

/// The values of an `INSERT`; see [`frags_insert`].
pub open spec fn frags_insert_values(ins: Insert) -> Seq<Frag>
    decreases ins, 3int, 0int,
{
    match ins.values.kind {
        ExpressionKind::Row(row) => if row.values@.len() == 0 {
            seq![Frag::Str(" DEFAULT VALUES"@)]
        } else {
            seq![Frag::Str(" ("@)] + bare_columns_frags(ins.columns@, 0) + seq![Frag::Str(") VALUES "@)]
                + frags_row(row)
        },
        ExpressionKind::Values(vs) => seq![Frag::Str(" ("@)] + bare_columns_frags(ins.columns@, 0)
            + seq![Frag::Str(") VALUES "@)] + frags_row_list(vs.rows@, ", "@),
        _ => seq![Frag::Str("("@)] + frags_expr(ins.values) + seq![Frag::Str(")"@)],
    }
}

/// The nodes the PostgreSQL renderer defines text for: every construct but a
/// JSON path in the dotted string notation, which belongs to another dialect.
/// Rendering is total over well-formed trees.
pub open spec fn wf_query(q: Query) -> bool
    decreases q, 0int,
{
    match q {
        Query::Select(s) => wf_select(*s),
        Query::Insert(i) => wf_insert(*i),
        Query::Update(u) => wf_update(*u),
        Query::Delete(d) => wf_delete(*d),
    }
}

/// See [`wf_query`].
pub open spec fn wf_select(s: Select) -> bool
    decreases s, 1int,
{
    &&& wf_cte_list(s.ctes@, 0)
    &&& wf_expr_list(s.columns@, 0)
    &&& wf_table_list(s.tables@, 0)
    &&& wf_join_list(s.joins@, 0)
    &&& (s.conditions matches Some(c) ==> wf_conditions(c))
    &&& wf_expr_list(s.grouping.0@, 0)
    &&& (s.having matches Some(c) ==> wf_conditions(c))
    &&& wf_ordering(s.ordering.0@, 0)
}

/// See [`wf_query`].
pub open spec fn wf_cte_list(cs: Seq<CommonTableExpression>, i: int) -> bool
    decreases cs, 2int, cs.len() - i,
{
    i < 0 || i >= cs.len() || (wf_query(cs[i].query) && wf_cte_list(cs, i + 1))
}

/// See [`wf_query`].
pub open spec fn wf_expr_list(es: Seq<Expression>, i: int) -> bool
    decreases es, 2int, es.len() - i,
{
    i < 0 || i >= es.len() || (wf_expr(es[i]) && wf_expr_list(es, i + 1))
}

/// See [`wf_query`].
pub open spec fn wf_column_list(cols: Seq<Column>, i: int) -> bool
    decreases cols, 2int, cols.len() - i,
{
    i < 0 || i >= cols.len() || (wf_column(cols[i]) && wf_column_list(cols, i + 1))
}

/// See [`wf_query`].
pub open spec fn wf_table_list(ts: Seq<Table>, i: int) -> bool
    decreases ts, 2int, ts.len() - i,
{
    i < 0 || i >= ts.len() || (wf_table(ts[i]) && wf_table_list(ts, i + 1))
}

/// See [`wf_query`].
pub open spec fn wf_table(t: Table) -> bool
    decreases t, 1int,
{
    match t.typ {
        TableType::Table(_) => true,
        TableType::Values(vals) => wf_values(vals),
        TableType::Query(s) => wf_select(*s),
        TableType::JoinedTable(jt) => wf_join_list(jt.1@, 0),
    }
}

/// See [`wf_query`].
pub open spec fn wf_join_list(js: Seq<Join>, i: int) -> bool
    decreases js, 2int, js.len() - i,
{
    i < 0 || i >= js.len() || ({
        &&& match js[i] {
            Join::Inner(d) => wf_join_data(d),
            Join::Left(d) => wf_join_data(d),
            Join::Right(d) => wf_join_data(d),
            Join::Full(d) => wf_join_data(d),
        }
        &&& wf_join_list(js, i + 1)
    })
}

/// See [`wf_query`].
pub open spec fn wf_join_data(d: JoinData) -> bool
    decreases d, 1int,
{
    wf_table(d.table) && wf_conditions(d.conditions)
}

/// See [`wf_query`].
pub open spec fn wf_conditions(t: ConditionTree) -> bool
    decreases t, 3int,
{
    match t {
        ConditionTree::And(es) => wf_expr_list(es@, 0),
        ConditionTree::Or(es) => wf_expr_list(es@, 0),
        ConditionTree::Not(e) => wf_expr(*e),
        ConditionTree::Single(e) => wf_expr(*e),
        ConditionTree::NoCondition => true,
        ConditionTree::NegativeCondition => true,
        ConditionTree::Exists(tb) => wf_table(*tb),
    }
}

/// See [`wf_query`].
pub open spec fn wf_expr(e: Expression) -> bool
    decreases e, 2int,
{
    wf_kind(e.kind)
}

/// See [`wf_query`].
pub open spec fn wf_kind(k: ExpressionKind) -> bool
    decreases k, 1int,
{
    match k {
        ExpressionKind::Parameterized(_) => true,
        ExpressionKind::Raw(_) => true,
        ExpressionKind::Column(c) => wf_column(*c),
        ExpressionKind::Table(t) => wf_table(*t),
        ExpressionKind::Row(r) => wf_expr_list(r.values@, 0),
        ExpressionKind::Selection(s) => wf_select(*s),
        ExpressionKind::Function(f) => wf_function(*f),
        ExpressionKind::Asterisk(t) => match t {
            Some(tb) => wf_table(*tb),
            None => true,
        },
        ExpressionKind::Op(op) => wf_op(*op),
        ExpressionKind::ConditionTree(ct) => wf_conditions(ct),
        ExpressionKind::Compare(c) => wf_compare(c),
        ExpressionKind::Value(e) => wf_expr(*e),
        ExpressionKind::Values(vs) => wf_values(vs),
        ExpressionKind::Default => true,
    }
}

/// See [`wf_query`].
pub open spec fn wf_column(c: Column) -> bool
    decreases c, 1int,
{
    match c.table {
        Some(t) => wf_table(*t),
        None => true,
    }
}

/// See [`wf_query`].
pub open spec fn wf_values(vs: Values) -> bool
    decreases vs, 3int,
{
    wf_row_list(vs.rows@, 0)
}

/// See [`wf_query`].
pub open spec fn wf_row_list(rows: Seq<Row>, i: int) -> bool
    decreases rows, 4int, rows.len() - i,
{
    i < 0 || i >= rows.len() || (wf_expr_list(rows[i].values@, 0) && wf_row_list(rows, i + 1))
}

/// See [`wf_query`].
pub open spec fn wf_op(op: SqlOp) -> bool
    decreases op, 1int,
{
    match op {
        SqlOp::Add(l, r) => wf_expr(l) && wf_expr(r),
        SqlOp::Sub(l, r) => wf_expr(l) && wf_expr(r),
        SqlOp::Mul(l, r) => wf_expr(l) && wf_expr(r),
        SqlOp::Div(l, r) => wf_expr(l) && wf_expr(r),
        SqlOp::Rem(l, r) => wf_expr(l) && wf_expr(r),
        SqlOp::Append(l, r) => wf_expr(l) && wf_expr(r),
        SqlOp::JsonDeleteAtPath(l, r) => wf_expr(l) && wf_expr(r),
    }
}

/// See [`wf_query`].
pub open spec fn wf_compare(c: Compare) -> bool
    decreases c, 5int,
{
    match c {
        Compare::Equals(l, r) => wf_expr(*l) && wf_expr(*r),
        Compare::NotEquals(l, r) => wf_expr(*l) && wf_expr(*r),
        Compare::LessThan(l, r) => wf_expr(*l) && wf_expr(*r),
        Compare::LessThanOrEquals(l, r) => wf_expr(*l) && wf_expr(*r),
        Compare::GreaterThan(l, r) => wf_expr(*l) && wf_expr(*r),
        Compare::GreaterThanOrEquals(l, r) => wf_expr(*l) && wf_expr(*r),
        Compare::In(l, r) => wf_expr(*l) && wf_expr(*r),
        Compare::NotIn(l, r) => wf_expr(*l) && wf_expr(*r),
        Compare::Like(l, r) => wf_expr(*l) && wf_expr(*r),
        Compare::NotLike(l, r) => wf_expr(*l) && wf_expr(*r),
        Compare::Null(e) => wf_expr(*e),
        Compare::NotNull(e) => wf_expr(*e),
        Compare::Between(v, l, r) => wf_expr(*v) && wf_expr(*l) && wf_expr(*r),
        Compare::NotBetween(v, l, r) => wf_expr(*v) && wf_expr(*l) && wf_expr(*r),
        Compare::Raw(l, _, r) => wf_expr(*l) && wf_expr(*r),
        Compare::JsonCompare(j) => wf_json_compare(j),
        Compare::Any(e) => wf_expr(*e),
        Compare::All(e) => wf_expr(*e),
    }
}

/// See [`wf_query`].
pub open spec fn wf_json_compare(j: JsonCompare) -> bool
    decreases j, 5int,
{
    match j {
        JsonCompare::ArrayOverlaps(l, r) => wf_expr(*l) && wf_expr(*r),
        JsonCompare::ArrayContains(l, r) => wf_expr(*l) && wf_expr(*r),
        JsonCompare::ArrayContained(l, r) => wf_expr(*l) && wf_expr(*r),
        JsonCompare::ArrayNotContains(l, r) => wf_expr(*l) && wf_expr(*r),
        JsonCompare::TypeEquals(l, t) => wf_expr(*l) && wf_json_type(t),
        JsonCompare::TypeNotEquals(l, t) => wf_expr(*l) && wf_json_type(t),
    }
}

/// See [`wf_query`].
pub open spec fn wf_json_type(t: JsonType) -> bool
    decreases t, 4int,
{
    match t {
        JsonType::ColumnRef(c) => wf_column(*c),
        _ => true,
    }
}

/// See [`wf_query`].
pub open spec fn wf_ordering(pairs: Seq<OrderDefinition>, i: int) -> bool
    decreases pairs, 3int, pairs.len() - i,
{
    i < 0 || i >= pairs.len() || (wf_expr(pairs[i].0) && wf_ordering(pairs, i + 1))
}

/// See [`wf_query`]: a JSON extraction must use the array-of-keys notation.
pub open spec fn wf_function(f: Function) -> bool
    decreases f, 6int,
{
    match f.typ_ {
        FunctionType::Count(c) => wf_expr_list(c.exprs@, 0),
        FunctionType::AggregateToString(a) => wf_expr(*a.value),
        FunctionType::RowToJson(r) => wf_table(r.expr),
        FunctionType::Average(a) => wf_column(a.column),
        FunctionType::Sum(s) => wf_expr(*s.expr),
        FunctionType::Lower(l) => wf_expr(*l.expression),
        FunctionType::Upper(u) => wf_expr(*u.expression),
        FunctionType::Minimum(m) => wf_column(m.column),
        FunctionType::Maximum(m) => wf_column(m.column),
        FunctionType::Coalesce(c) => wf_expr_list(c.exprs@, 0),
        FunctionType::JsonExtract(j) => j.path is Array && wf_expr(*j.column),
        FunctionType::JsonExtractFirstArrayElem(j) => wf_expr(*j.expr),
        FunctionType::JsonExtractLastArrayElem(j) => wf_expr(*j.expr),
        FunctionType::JsonUnquote(j) => wf_expr(*j.expr),
        FunctionType::ToJsonb(t) => wf_table(t.table),
        FunctionType::JsonAgg(j) => wf_expr(j.expression) && (match j.order_by {
            Some(o) => wf_ordering(o.0@, 0),
            None => true,
        }),
        FunctionType::Encode(e) => wf_expr(e.expression),
        FunctionType::JsonBuildObject(j) => wf_build_object_list(j.values@, 0),
        FunctionType::Concat(c) => wf_expr_list(c.exprs@, 0),
    }
}

/// See [`wf_query`].
pub open spec fn wf_build_object_list(values: Seq<(String, Expression)>, i: int) -> bool
    decreases values, 5int, values.len() - i,
{
    i < 0 || i >= values.len() || (wf_expr(values[i].1) && wf_build_object_list(values, i + 1))
}

/// See [`wf_query`].
pub open spec fn wf_assignments(u: Update, i: int) -> bool
    decreases u, 1int, assign_count(u) - i,
{
    i < 0 || i >= assign_count(u)
        || (wf_column(u.columns@[i]) && wf_expr(u.values@[i]) && wf_assignments(u, i + 1))
}

/// See [`wf_query`].
pub open spec fn wf_update(u: Update) -> bool
    decreases u, 2int,
{
    &&& wf_table(u.table)
    &&& wf_assignments(u, 0)
    &&& (u.conditions matches Some(c) ==> wf_conditions(c))
    &&& (u.returning matches Some(cols) ==> wf_column_list(cols@, 0))
}

/// See [`wf_query`].
pub open spec fn wf_delete(d: Delete) -> bool
    decreases d, 1int,
{
    wf_table(d.table) && (d.conditions matches Some(c) ==> wf_conditions(c))
}

/// See [`wf_query`].
pub open spec fn wf_insert(ins: Insert) -> bool
    decreases ins, 3int,
{
    &&& (ins.table matches Some(t) ==> wf_table(t))
    &&& wf_expr(ins.values)
    &&& (ins.on_conflict matches Some(c) ==> match c {
        OnConflict::DoNothing => true,
        OnConflict::Update(u, _) => wf_update(u),
    })
    &&& (ins.returning matches Some(cols) ==> wf_column_list(cols@, 0))
}

/// The whole text of a rendered query, placeholders numbered from one.
pub open spec fn render_text(q: Query) -> Seq<char> {
    frag_text(frags_query(q), 0)
}

/// The parameters of a rendered query, in placeholder order.
pub open spec fn render_params(q: Query) -> Seq<ValueV> {
    frag_params(frags_query(q))
}

} // verus!

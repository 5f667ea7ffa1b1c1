//! The renderer for the PostgreSQL dialect: double-quoted identifiers and
//! positional `$n` placeholders.
use vstd::prelude::*;
use crate::ast::{
    Column, CommonTableExpression, Compare, ConditionTree, Delete, Expression, ExpressionKind,
    Function, FunctionType, Insert, Join, JoinData, JsonCompare, JsonPath, JsonType, OnConflict,
    Order, OrderDefinition, Query, Row, Select, SqlOp, Table, TableType, Update, Value, ValueV,
    Values,
};
use crate::renderer::{
    alias_frags, assign_count, bare_columns_frags, dec_digit, dec_str, encode_format_text,
    frag_params, frag_text, frags_assignments, frags_build_object_list, frags_column,
    frags_column_list, frags_compare, frags_conditions, frags_cte_list, frags_delete, frags_expr,
    frags_expr_list, frags_function, frags_in, frags_insert, frags_join_data, frags_join_list,
    frags_json_compare, frags_json_type, frags_kind, frags_op, frags_ordering, frags_path_list,
    frags_query, frags_row, frags_row_list, frags_select, frags_table, frags_table_list,
    frags_update, frags_upsert, frags_values, ident_frags, ident_text,
    like_cast_frags, limit_offset_frags, order_text, projection_frags,
    quoted, render_params, render_text, returning_frags, wf_assignments, wf_build_object_list,
    wf_column, wf_column_list, wf_compare, wf_conditions, wf_cte_list, wf_delete, wf_expr,
    wf_expr_list, wf_function, wf_insert, wf_join_data, wf_join_list, wf_json_compare,
    wf_json_type, wf_kind, wf_op, wf_ordering, wf_query, wf_row_list, wf_select, wf_table,
    wf_table_list, wf_update, wf_values, Frag,
};

verus! {

/// A renderer for the PostgreSQL dialect. Its only state is the text written
/// so far and the parameters gathered so far, both append-only during one
/// build.
pub struct Postgres {
    query: String,
    parameters: Vec<Value>,
    frags: Ghost<Seq<Frag>>,
}

impl Postgres {
    /// The fragments rendered so far.
    pub closed spec fn rendered(&self) -> Seq<Frag> {
        self.frags@
    }

    /// The SQL text written so far.
    pub closed spec fn sql(&self) -> Seq<char> {
        self.query@
    }

    /// The models of the parameters gathered so far, in placeholder order.
    pub closed spec fn params(&self) -> Seq<ValueV> {
        crate::ast::values_view(self.parameters@)
    }

    /// The accumulators realize the rendered fragments: the text is their
    /// text with placeholders numbered from one, and the parameter list holds
    /// exactly the values they bind, in order.
    pub closed spec fn inv(&self) -> bool {
        &&& self.query@ == frag_text(self.frags@, 0)
        &&& crate::ast::values_view(self.parameters@) == frag_params(self.frags@)
        &&& self.parameters@.len() == frag_params(self.frags@).len()
    }

    fn write(&mut self, s: &str)
        ensures
            final(self).query@ == old(self).query@ + s@,
            final(self).parameters == old(self).parameters,
            final(self).frags == old(self).frags,
    {
        self.query.append(s);
    }

    fn push_decimal(&mut self, n: usize)
        ensures
            final(self).query@ == old(self).query@ + dec_str(n as nat),
            final(self).parameters == old(self).parameters,
            final(self).frags == old(self).frags,
        decreases n,
    {
        if n >= 10 {
            self.push_decimal(n / 10);
        }
        let d = n % 10;
        proof {
            reveal_strlit("0"); reveal_strlit("1"); reveal_strlit("2");
            reveal_strlit("3"); reveal_strlit("4"); reveal_strlit("5");
            reveal_strlit("6"); reveal_strlit("7"); reveal_strlit("8");
            reveal_strlit("9");
        }
        match d {
            0 => self.write("0"),
            1 => self.write("1"),
            2 => self.write("2"),
            3 => self.write("3"),
            4 => self.write("4"),
            5 => self.write("5"),
            6 => self.write("6"),
            7 => self.write("7"),
            8 => self.write("8"),
            _ => self.write("9"),
        }
        proof {
            if n < 10 {
                assert(dec_str(n as nat) =~= seq![dec_digit(n as nat)]);
            }
            assert(self.query@ =~= old(self).query@ + dec_str(n as nat));
        }
    }

    fn add_parameter(&mut self, value: Value)
        ensures
            final(self).parameters@ == old(self).parameters@.push(value),
            final(self).query == old(self).query,
            final(self).frags == old(self).frags,
    {
        self.parameters.push(value);
    }

    fn parameter_substitution(&mut self)
        ensures
            final(self).query@ == old(self).query@ + seq!['$'] + dec_str(old(self).parameters@.len() as nat),
            final(self).parameters == old(self).parameters,
            final(self).frags == old(self).frags,
    {
        proof { reveal_strlit("$"); }
        self.write("$");
        let n = self.parameters.len();
        self.push_decimal(n);
    }

    /// Write literal text, one fragment.
    fn emit_str(&mut self, s: &str)
        requires
            old(self).inv(),
        ensures
            final(self).inv(),
            final(self).frags@ == old(self).frags@ + seq![Frag::Str(s@)],
    {
        let ghost fs0 = self.frags@;
        self.write(s);
        proof {
            self.frags@ = fs0 + seq![Frag::Str(s@)];
            crate::renderer::lemma_frag_text_concat(fs0, seq![Frag::Str(s@)], 0);
            crate::renderer::lemma_frag_params_concat(fs0, seq![Frag::Str(s@)]);
            crate::renderer::lemma_frag_text_str(s@, frag_params(fs0).len());
            crate::renderer::lemma_frag_params_str(s@);
            assert(frag_params(self.frags@) =~= frag_params(fs0));
            assert(self.query@ == frag_text(self.frags@, 0));
        }
    }

    /// Write one quoted identifier part, one fragment.
    fn emit_ident(&mut self, part: &str)
        requires
            old(self).inv(),
        ensures
            final(self).inv(),
            final(self).frags@ == old(self).frags@ + seq![Frag::Str(quoted(part@))],
    {
        let ghost fs0 = self.frags@;
        proof { reveal_strlit("\""); }
        self.write("\"");
        self.write(part);
        self.write("\"");
        proof {
            self.frags@ = fs0 + seq![Frag::Str(quoted(part@))];
            crate::renderer::lemma_frag_text_concat(fs0, seq![Frag::Str(quoted(part@))], 0);
            crate::renderer::lemma_frag_params_concat(fs0, seq![Frag::Str(quoted(part@))]);
            crate::renderer::lemma_frag_text_str(quoted(part@), frag_params(fs0).len());
            crate::renderer::lemma_frag_params_str(quoted(part@));
            assert(frag_params(self.frags@) =~= frag_params(fs0));
            assert(self.query@ =~= frag_text(self.frags@, 0));
        }
    }

    /// Write a database-qualified identifier, one fragment.
    fn emit_ident2(&mut self, database: &str, part: &str)
        requires
            old(self).inv(),
        ensures
            final(self).inv(),
            final(self).frags@ == old(self).frags@
                + seq![Frag::Str(quoted(database@) + seq!['.'] + quoted(part@))],
    {
        let ghost fs0 = self.frags@;
        let ghost t = quoted(database@) + seq!['.'] + quoted(part@);
        proof {
            reveal_strlit("\"");
            reveal_strlit(".");
        }
        self.write("\"");
        self.write(database);
        self.write("\"");
        self.write(".");
        self.write("\"");
        self.write(part);
        self.write("\"");
        proof {
            self.frags@ = fs0 + seq![Frag::Str(t)];
            crate::renderer::lemma_frag_text_concat(fs0, seq![Frag::Str(t)], 0);
            crate::renderer::lemma_frag_params_concat(fs0, seq![Frag::Str(t)]);
            crate::renderer::lemma_frag_text_str(t, frag_params(fs0).len());
            crate::renderer::lemma_frag_params_str(t);
            assert(frag_params(self.frags@) =~= frag_params(fs0));
            assert(self.query@ =~= frag_text(self.frags@, 0));
        }
    }

    /// Write a possibly database-qualified identifier.
    fn visit_ident(&mut self, database: &Option<String>, name: &str)
        requires
            old(self).inv(),
        ensures
            final(self).inv(),
            final(self).frags@ == old(self).frags@ + ident_frags(*database, name@),
    {
        match database {
            Some(d) => self.emit_ident2(d.as_str(), name),
            None => self.emit_ident(name),
        }
    }

    /// Hand the value over as a parameter and write its placeholder, one
    /// fragment.
    fn visit_parameterized(&mut self, v: &Value)
        requires
            old(self).inv(),
        ensures
            final(self).inv(),
            final(self).frags@ == old(self).frags@ + seq![Frag::Param(v@)],
    {
        let ghost fs0 = self.frags@;
        let ghost k = frag_params(fs0).len();
        let d = v.duplicate();
        proof {
            crate::ast::lemma_values_view_len(self.parameters@);
            crate::ast::lemma_values_view_push(self.parameters@, d);
        }
        self.add_parameter(d);
        self.parameter_substitution();
        proof {
            self.frags@ = fs0 + seq![Frag::Param(v@)];
            crate::renderer::lemma_frag_text_concat(fs0, seq![Frag::Param(v@)], 0);
            crate::renderer::lemma_frag_params_concat(fs0, seq![Frag::Param(v@)]);
            crate::renderer::lemma_frag_text_param(v@, k);
            crate::renderer::lemma_frag_params_param(v@);
            assert(frag_params(self.frags@) =~= frag_params(fs0).push(v@));
            assert(crate::ast::values_view(self.parameters@) =~= frag_params(self.frags@));
            assert(self.query@ =~= frag_text(self.frags@, 0));
        }
    }

    /// Write the `LIMIT` and `OFFSET` clauses, handing both values over as
    /// parameters.
    #[verifier::rlimit(100)]
    pub fn visit_limit_and_offset(&mut self, limit: Option<u32>, offset: Option<u32>)
        requires
            old(self).inv(),
        ensures
            final(self).inv(),
            final(self).rendered() == old(self).rendered() + limit_offset_frags(limit, offset),
    {
        let ghost fs = limit_offset_frags(limit, offset);
        match (limit, offset) {
            (Some(l), Some(o)) => {
                self.emit_str(" LIMIT ");
                self.visit_parameterized(&Value::Int(l as i64));
                self.emit_str(" OFFSET ");
                self.visit_parameterized(&Value::Int(o as i64));
            },
            (None, Some(o)) => {
                self.emit_str(" OFFSET ");
                self.visit_parameterized(&Value::Int(o as i64));
            },
            (Some(l), None) => {
                self.emit_str(" LIMIT ");
                self.visit_parameterized(&Value::Int(l as i64));
            },
            (None, None) => {},
        }
        proof {
            assert(final(self).rendered() =~= old(self).rendered() + fs);
        }
    }

    /// Write the bracketed list of bare column names, from position `i` on.
    #[verifier::rlimit(100)]
    fn visit_bare_columns_at(&mut self, cols: &Vec<Column>, i: usize)
        requires
            old(self).inv(),
            i <= cols@.len(),
        ensures
            final(self).inv(),
            final(self).rendered() == old(self).rendered() + bare_columns_frags(cols@, i as int),
        decreases cols@.len() - i,
    {
        let ghost fs = bare_columns_frags(cols@, i as int);
        if i < cols.len() {
            self.emit_ident(cols[i].name.as_str());
            if i + 1 < cols.len() {
                self.emit_str(",");
            }
            self.visit_bare_columns_at(cols, i + 1);
        }
        proof {
            assert(final(self).rendered() =~= old(self).rendered() + fs);
        }
    }

    /// Write the default projection, `table.*` per source table, from
    /// position `i` on.
    #[verifier::rlimit(100)]
    fn visit_projection_at(&mut self, tables: &Vec<crate::ast::Table>, i: usize)
        requires
            old(self).inv(),
            i <= tables@.len(),
        ensures
            final(self).inv(),
            final(self).rendered() == old(self).rendered() + projection_frags(tables@, i as int),
        decreases tables@.len() - i,
    {
        let ghost fs = projection_frags(tables@, i as int);
        if i < tables.len() {
            if i > 0 {
                self.emit_str(", ");
            }
            let t = &tables[i];
            match &t.alias {
                Some(a) => {
                    self.emit_ident(a.as_str());
                    self.emit_str(".*");
                },
                None => {
                    match &t.typ {
                        crate::ast::TableType::Table(name) => {
                            self.visit_ident(&t.database, name.as_str());
                            self.emit_str(".*");
                        },
                        crate::ast::TableType::JoinedTable(jt) => {
                            self.visit_ident(&t.database, jt.0.as_str());
                            self.emit_str(".*");
                        },
                        _ => {
                            self.emit_str("*");
                        },
                    }
                },
            }
            self.visit_projection_at(tables, i + 1);
        }
        proof {
            assert(final(self).rendered() =~= old(self).rendered() + fs);
        }
    }

    /// Write the keys of a JSON path, each handed over as a text parameter,
    /// from position `i` on.
    #[verifier::rlimit(100)]
    fn visit_path_list_at(&mut self, path: &Vec<String>, i: usize)
        requires
            old(self).inv(),
            i <= path@.len(),
        ensures
            final(self).inv(),
            final(self).rendered() == old(self).rendered() + frags_path_list(path@, i as int),
        decreases path@.len() - i,
    {
        let ghost fs = frags_path_list(path@, i as int);
        if i < path.len() {
            let v = Value::Text(path[i].clone());
            self.visit_parameterized(&v);
            if i + 1 < path.len() {
                self.emit_str(", ");
            }
            self.visit_path_list_at(path, i + 1);
        }
        proof {
            assert(final(self).rendered() =~= old(self).rendered() + fs);
        }
    }

    /// Render one expression: its shape, then its alias when it has one.
    #[verifier::rlimit(100)]
    pub fn visit_expression(&mut self, e: &Expression)
        requires
            old(self).inv(),
            wf_expr(*e),
        ensures
            final(self).inv(),
            final(self).rendered() == old(self).rendered() + frags_expr(*e),
        decreases *e, 2int, 0int,
    {
        let ghost fs = frags_expr(*e);
        match &e.kind {
            ExpressionKind::Parameterized(v) => {
                self.visit_parameterized(v);
            },
            ExpressionKind::Raw(s) => {
                self.emit_str(s.as_str());
            },
            ExpressionKind::Column(c) => {
                self.visit_column(c);
            },
            ExpressionKind::Table(t) => {
                self.visit_table(t, false);
            },
            ExpressionKind::Row(r) => {
                self.visit_row(r);
            },
            ExpressionKind::Selection(sel) => {
                self.emit_str("(");
                self.visit_select(sel);
                self.emit_str(")");
            },
            ExpressionKind::Function(f) => {
                self.visit_function(f);
            },
            ExpressionKind::Asterisk(t) => {
                match t {
                    Some(tb) => {
                        self.visit_table(tb, false);
                        self.emit_str(".*");
                    },
                    None => {
                        self.emit_str("*");
                    },
                }
            },
            ExpressionKind::Op(op) => {
                self.visit_operation(op);
            },
            ExpressionKind::ConditionTree(ct) => {
                self.visit_conditions(ct);
            },
            ExpressionKind::Compare(c) => {
                self.visit_compare(c);
            },
            ExpressionKind::Value(inner) => {
                self.visit_expression(inner);
            },
            ExpressionKind::Values(vs) => {
                self.visit_values(vs);
            },
            ExpressionKind::Default => {
                self.emit_str("DEFAULT");
            },
        }
        if let Some(a) = &e.alias {
            self.emit_str(" AS ");
            self.emit_ident(a.as_str());
        }
        proof {
            assert(final(self).rendered() =~= old(self).rendered() + fs);
        }
    }

    /// Render a list of expressions separated by `sep`, from position `i` on.
    #[verifier::rlimit(100)]
    fn visit_expr_list_at(&mut self, es: &Vec<Expression>, i: usize, sep: &str)
        requires
            old(self).inv(),
            i <= es@.len(),
            wf_expr_list(es@, i as int),
        ensures
            final(self).inv(),
            final(self).rendered() == old(self).rendered() + frags_expr_list(es@.skip(i as int), sep@),
        decreases es@, 2int, es@.len() - i,
    {
        let ghost fs = frags_expr_list(es@.skip(i as int), sep@);
        let len = es.len();
        if i < len {
            proof {
                assert(es@.skip(i as int)[0] == es@[i as int]);
                assert(es@.skip(i as int).drop_first() =~= es@.skip(i as int + 1));
                assert(es@.skip(i as int).len() == len - i);
            }
            self.visit_expression(&es[i]);
            if i + 1 < len {
                self.emit_str(sep);
                self.visit_expr_list_at(es, i + 1, sep);
            }
        }
        proof {
            assert(final(self).rendered() =~= old(self).rendered() + fs);
        }
    }

    /// Render the projected columns of a `SELECT`, comma-separated.
    #[verifier::rlimit(100)]
    pub fn visit_columns(&mut self, columns: &Vec<Expression>)
        requires
            old(self).inv(),
            wf_expr_list(columns@, 0),
        ensures
            final(self).inv(),
            final(self).rendered() == old(self).rendered() + frags_expr_list(columns@, ", "@),
        decreases columns@, 3int, 0int,
    {
        proof {
            assert(columns@.skip(0) =~= columns@);
        }
        self.visit_expr_list_at(columns, 0, ", ");
    }

    /// Render a column reference: its table, a dot, the quoted name, then
    /// its alias when it has one.
    #[verifier::rlimit(100)]
    pub fn visit_column(&mut self, c: &Column)
        requires
            old(self).inv(),
            wf_column(*c),
        ensures
            final(self).inv(),
            final(self).rendered() == old(self).rendered() + frags_column(*c),
        decreases *c, 1int, 0int,
    {
        let ghost fs = frags_column(*c);
        match &c.table {
            Some(t) => {
                self.visit_table(t, false);
                self.emit_str(".");
                self.emit_ident(c.name.as_str());
            },
            None => {
                self.emit_ident(c.name.as_str());
            },
        }
        if let Some(a) = &c.alias {
            self.emit_str(" AS ");
            self.emit_ident(a.as_str());
        }
        proof {
            assert(final(self).rendered() =~= old(self).rendered() + fs);
        }
    }

    /// Render a table reference; with its alias when `include_alias` is set.
    #[verifier::rlimit(100)]
    pub fn visit_table(&mut self, t: &Table, include_alias: bool)
        requires
            old(self).inv(),
            wf_table(*t),
        ensures
            final(self).inv(),
            final(self).rendered() == old(self).rendered() + frags_table(*t, include_alias),
        decreases *t, 1int, 0int,
    {
        let ghost fs = frags_table(*t, include_alias);
        match &t.typ {
            TableType::Table(name) => {
                self.visit_ident(&t.database, name.as_str());
            },
            TableType::Values(vals) => {
                self.visit_values(vals);
            },
            TableType::Query(sel) => {
                self.emit_str("(");
                self.visit_select(sel);
                self.emit_str(")");
            },
            TableType::JoinedTable(jt) => {
                self.visit_ident(&t.database, jt.0.as_str());
                proof {
                    assert(jt.1@.skip(0) =~= jt.1@);
                }
                self.visit_joins_at(&jt.1, 0);
            },
        }
        if include_alias {
            if let Some(a) = &t.alias {
                self.emit_str(" AS ");
                self.emit_ident(a.as_str());
            }
        }
        proof {
            assert(final(self).rendered() =~= old(self).rendered() + fs);
        }
    }

    /// Render the source-table list of a `FROM`, from position `i` on.
    #[verifier::rlimit(100)]
    fn visit_table_list_at(&mut self, ts: &Vec<Table>, i: usize)
        requires
            old(self).inv(),
            i <= ts@.len(),
            wf_table_list(ts@, i as int),
        ensures
            final(self).inv(),
            final(self).rendered() == old(self).rendered() + frags_table_list(ts@.skip(i as int)),
        decreases ts@, 2int, ts@.len() - i,
    {
        let ghost fs = frags_table_list(ts@.skip(i as int));
        let len = ts.len();
        if i < len {
            proof {
                assert(ts@.skip(i as int)[0] == ts@[i as int]);
                assert(ts@.skip(i as int).drop_first() =~= ts@.skip(i as int + 1));
                assert(ts@.skip(i as int).len() == len - i);
            }
            self.visit_table(&ts[i], true);
            if i + 1 < len {
                self.emit_str(", ");
                self.visit_table_list_at(ts, i + 1);
            }
        }
        proof {
            assert(final(self).rendered() =~= old(self).rendered() + fs);
        }
    }

    /// Render a join list, each join introduced by its keyword, from
    /// position `i` on.
    #[verifier::rlimit(100)]
    fn visit_joins_at(&mut self, js: &Vec<Join>, i: usize)
        requires
            old(self).inv(),
            i <= js@.len(),
            wf_join_list(js@, i as int),
        ensures
            final(self).inv(),
            final(self).rendered() == old(self).rendered() + frags_join_list(js@.skip(i as int)),
        decreases js@, 2int, js@.len() - i,
    {
        let ghost fs = frags_join_list(js@.skip(i as int));
        let len = js.len();
        if i < len {
            proof {
                assert(js@.skip(i as int)[0] == js@[i as int]);
                assert(js@.skip(i as int).drop_first() =~= js@.skip(i as int + 1));
            }
            match &js[i] {
                Join::Inner(d) => {
                    self.emit_str(" INNER JOIN ");
                    self.visit_join_data(d);
                },
                Join::Left(d) => {
                    self.emit_str(" LEFT JOIN ");
                    self.visit_join_data(d);
                },
                Join::Right(d) => {
                    self.emit_str(" RIGHT JOIN ");
                    self.visit_join_data(d);
                },
                Join::Full(d) => {
                    self.emit_str(" FULL JOIN ");
                    self.visit_join_data(d);
                },
            }
            self.visit_joins_at(js, i + 1);
        }
        proof {
            assert(final(self).rendered() =~= old(self).rendered() + fs);
        }
    }

    /// The join statements of the query.
    #[verifier::rlimit(100)]
    pub fn visit_joins(&mut self, joins: &Vec<Join>)
        requires
            old(self).inv(),
            wf_join_list(joins@, 0),
        ensures
            final(self).inv(),
            final(self).rendered() == old(self).rendered() + frags_join_list(joins@),
        decreases joins@, 3int, 0int,
    {
        proof {
            assert(joins@.skip(0) =~= joins@);
        }
        self.visit_joins_at(joins, 0);
    }

    /// Render one join: `LATERAL` when asked, the joined table with its
    /// alias, `ON`, and the join conditions.
    #[verifier::rlimit(100)]
    pub fn visit_join_data(&mut self, d: &JoinData)
        requires
            old(self).inv(),
            wf_join_data(*d),
        ensures
            final(self).inv(),
            final(self).rendered() == old(self).rendered() + frags_join_data(*d),
        decreases *d, 1int, 0int,
    {
        let ghost fs = frags_join_data(*d);
        if d.lateral {
            self.emit_str(" LATERAL ");
        }
        self.visit_table(&d.table, true);
        self.emit_str(" ON ");
        self.visit_conditions(&d.conditions);
        proof {
            assert(final(self).rendered() =~= old(self).rendered() + fs);
        }
    }

    /// Render a condition tree.
    #[verifier::rlimit(100)]
    pub fn visit_conditions(&mut self, tree: &ConditionTree)
        requires
            old(self).inv(),
            wf_conditions(*tree),
        ensures
            final(self).inv(),
            final(self).rendered() == old(self).rendered() + frags_conditions(*tree),
        decreases *tree, 3int, 0int,
    {
        let ghost fs = frags_conditions(*tree);
        match tree {
            ConditionTree::And(es) => {
                self.emit_str("(");
                proof {
                    assert(es@.skip(0) =~= es@);
                }
                self.visit_expr_list_at(es, 0, " AND ");
                self.emit_str(")");
            },
            ConditionTree::Or(es) => {
                self.emit_str("(");
                proof {
                    assert(es@.skip(0) =~= es@);
                }
                self.visit_expr_list_at(es, 0, " OR ");
                self.emit_str(")");
            },
            ConditionTree::Not(e) => {
                self.emit_str("(NOT ");
                self.visit_expression(e);
                self.emit_str(")");
            },
            ConditionTree::Single(e) => {
                self.visit_expression(e);
            },
            ConditionTree::NoCondition => {
                self.emit_str("1=1");
            },
            ConditionTree::NegativeCondition => {
                self.emit_str("1=0");
            },
            ConditionTree::Exists(tb) => {
                self.emit_str("(EXISTS (");
                self.visit_table(tb, false);
                self.emit_str("))");
            },
        }
        proof {
            assert(final(self).rendered() =~= old(self).rendered() + fs);
        }
    }

    /// Render a row: its values in parentheses, comma-separated.
    #[verifier::rlimit(100)]
    pub fn visit_row(&mut self, r: &Row)
        requires
            old(self).inv(),
            wf_expr_list(r.values@, 0),
        ensures
            final(self).inv(),
            final(self).rendered() == old(self).rendered() + frags_row(*r),
        decreases *r, 3int, 0int,
    {
        let ghost fs = frags_row(*r);
        self.emit_str("(");
        proof {
            assert(r.values@.skip(0) =~= r.values@);
        }
        self.visit_expr_list_at(&r.values, 0, ",");
        self.emit_str(")");
        proof {
            assert(final(self).rendered() =~= old(self).rendered() + fs);
        }
    }

    /// Render a row list separated by `sep`, from position `i` on.
    #[verifier::rlimit(100)]
    fn visit_row_list_at(&mut self, rows: &Vec<Row>, i: usize, sep: &str)
        requires
            old(self).inv(),
            i <= rows@.len(),
            wf_row_list(rows@, i as int),
        ensures
            final(self).inv(),
            final(self).rendered() == old(self).rendered() + frags_row_list(rows@.skip(i as int), sep@),
        decreases rows@, 4int, rows@.len() - i,
    {
        let ghost fs = frags_row_list(rows@.skip(i as int), sep@);
        let len = rows.len();
        if i < len {
            proof {
                assert(rows@.skip(i as int)[0] == rows@[i as int]);
                assert(rows@.skip(i as int).drop_first() =~= rows@.skip(i as int + 1));
                assert(rows@.skip(i as int).len() == len - i);
            }
            self.visit_row(&rows[i]);
            if i + 1 < len {
                self.emit_str(sep);
                self.visit_row_list_at(rows, i + 1, sep);
            }
        }
        proof {
            assert(final(self).rendered() =~= old(self).rendered() + fs);
        }
    }

    /// Render a literal row set: its rows in parentheses, comma-separated.
    #[verifier::rlimit(100)]
    pub fn visit_values(&mut self, vs: &Values)
        requires
            old(self).inv(),
            wf_values(*vs),
        ensures
            final(self).inv(),
            final(self).rendered() == old(self).rendered() + frags_values(*vs),
        decreases *vs, 3int, 0int,
    {
        let ghost fs = frags_values(*vs);
        self.emit_str("(");
        proof {
            assert(vs.rows@.skip(0) =~= vs.rows@);
        }
        self.visit_row_list_at(&vs.rows, 0, ",");
        self.emit_str(")");
        proof {
            assert(final(self).rendered() =~= old(self).rendered() + fs);
        }
    }

    /// Render an arithmetic or string operation, in parentheses.
    #[verifier::rlimit(100)]
    pub fn visit_operation(&mut self, op: &SqlOp)
        requires
            old(self).inv(),
            wf_op(*op),
        ensures
            final(self).inv(),
            final(self).rendered() == old(self).rendered() + frags_op(*op),
        decreases *op, 1int, 0int,
    {
        let ghost fs = frags_op(*op);
        match op {
            SqlOp::Add(l, r) => {
                self.emit_str("(");
                self.visit_expression(l);
                self.emit_str(" + ");
                self.visit_expression(r);
                self.emit_str(")");
            },
            SqlOp::Sub(l, r) => {
                self.emit_str("(");
                self.visit_expression(l);
                self.emit_str(" - ");
                self.visit_expression(r);
                self.emit_str(")");
            },
            SqlOp::Mul(l, r) => {
                self.emit_str("(");
                self.visit_expression(l);
                self.emit_str(" * ");
                self.visit_expression(r);
                self.emit_str(")");
            },
            SqlOp::Div(l, r) => {
                self.emit_str("(");
                self.visit_expression(l);
                self.emit_str(" / ");
                self.visit_expression(r);
                self.emit_str(")");
            },
            SqlOp::Rem(l, r) => {
                self.emit_str("(");
                self.visit_expression(l);
                self.emit_str(" % ");
                self.visit_expression(r);
                self.emit_str(")");
            },
            SqlOp::Append(l, r) => {
                self.emit_str("(");
                self.visit_expression(l);
                self.emit_str(" || ");
                self.visit_expression(r);
                self.emit_str(")");
            },
            SqlOp::JsonDeleteAtPath(l, r) => {
                self.emit_str("(");
                self.visit_expression(l);
                self.emit_str(" #- ");
                self.visit_expression(r);
                self.emit_str(")");
            },
        }
        proof {
            assert(final(self).rendered() =~= old(self).rendered() + fs);
        }
    }

    /// Render a comparison.
    #[verifier::rlimit(100)]
    pub fn visit_compare(&mut self, c: &Compare)
        requires
            old(self).inv(),
            wf_compare(*c),
        ensures
            final(self).inv(),
            final(self).rendered() == old(self).rendered() + frags_compare(*c),
        decreases *c, 5int, 0int,
    {
        let ghost fs = frags_compare(*c);
        match c {
            Compare::Equals(l, r) => {
                self.visit_expression(l);
                self.emit_str(" = ");
                self.visit_expression(r);
            },
            Compare::NotEquals(l, r) => {
                self.visit_expression(l);
                self.emit_str(" <> ");
                self.visit_expression(r);
            },
            Compare::LessThan(l, r) => {
                self.visit_expression(l);
                self.emit_str(" < ");
                self.visit_expression(r);
            },
            Compare::LessThanOrEquals(l, r) => {
                self.visit_expression(l);
                self.emit_str(" <= ");
                self.visit_expression(r);
            },
            Compare::GreaterThan(l, r) => {
                self.visit_expression(l);
                self.emit_str(" > ");
                self.visit_expression(r);
            },
            Compare::GreaterThanOrEquals(l, r) => {
                self.visit_expression(l);
                self.emit_str(" >= ");
                self.visit_expression(r);
            },
            Compare::In(_, _) => {
                self.visit_in(c, false);
            },
            Compare::NotIn(_, _) => {
                self.visit_in(c, true);
            },
            Compare::Like(l, r) => {
                self.visit_expression(l);
                if matches!(&l.kind, ExpressionKind::Column(_)) {
                    self.emit_str("::text");
                }
                self.emit_str(" LIKE ");
                self.visit_expression(r);
            },
            Compare::NotLike(l, r) => {
                self.visit_expression(l);
                if matches!(&l.kind, ExpressionKind::Column(_)) {
                    self.emit_str("::text");
                }
                self.emit_str(" NOT LIKE ");
                self.visit_expression(r);
            },
            Compare::Null(e) => {
                self.visit_expression(e);
                self.emit_str(" IS NULL");
            },
            Compare::NotNull(e) => {
                self.visit_expression(e);
                self.emit_str(" IS NOT NULL");
            },
            Compare::Between(v, l, r) => {
                self.visit_expression(v);
                self.emit_str(" BETWEEN ");
                self.visit_expression(l);
                self.emit_str(" AND ");
                self.visit_expression(r);
            },
            Compare::NotBetween(v, l, r) => {
                self.visit_expression(v);
                self.emit_str(" NOT BETWEEN ");
                self.visit_expression(l);
                self.emit_str(" AND ");
                self.visit_expression(r);
            },
            Compare::Raw(l, op, r) => {
                self.visit_expression(l);
                self.emit_str(" ");
                self.emit_str(op.as_str());
                self.emit_str(" ");
                self.visit_expression(r);
            },
            Compare::JsonCompare(j) => {
                self.visit_json_compare(j);
            },
            Compare::Any(e) => {
                self.emit_str("ANY(");
                self.visit_expression(e);
                self.emit_str(")");
            },
            Compare::All(e) => {
                self.emit_str("ALL(");
                self.visit_expression(e);
                self.emit_str(")");
            },
        }
        proof {
            assert(final(self).rendered() =~= old(self).rendered() + fs);
        }
    }

    /// Render an `IN` or `NOT IN` comparison, applying the rewrite table:
    /// empty right sides collapse to a constant truth value, singletons
    /// flatten to a direct comparison.
    #[verifier::rlimit(100)]
    fn visit_in(&mut self, c: &Compare, negate: bool)
        requires
            old(self).inv(),
            wf_compare(*c),
            negate ==> c is NotIn,
            !negate ==> c is In,
        ensures
            final(self).inv(),
            final(self).rendered() == old(self).rendered() + frags_in(*c, negate),
        decreases *c, 4int, 0int,
    {
        let ghost fs = frags_in(*c, negate);
        let (left, right) = match c {
            Compare::In(l, r) => (&**l, &**r),
            Compare::NotIn(l, r) => (&**l, &**r),
            _ => {
                proof {
                    assert(false);
                }
                unreached()
            },
        };
        proof {
            assert(wf_expr(*left) && wf_expr(*right));
            assert(wf_kind(left.kind) && wf_kind(right.kind));
        }
        let right_empty_row = match &right.kind {
            ExpressionKind::Row(row) => row.values.len() == 0,
            _ => false,
        };
        let left_is_row = matches!(&left.kind, ExpressionKind::Row(_));
        let left_single = match &left.kind {
            ExpressionKind::Row(row) => row.values.len() == 1,
            _ => false,
        };
        if right_empty_row {
            if negate {
                self.emit_str("1=1");
            } else {
                self.emit_str("1=0");
            }
        } else if left_is_row && match &right.kind {
            ExpressionKind::Values(vs) => vs.rows.len() == 0,
            _ => false,
        } {
            if negate {
                self.emit_str("1=1");
            } else {
                self.emit_str("1=0");
            }
        } else if left_single && match &right.kind {
            ExpressionKind::Values(vs) => vs.rows.len() == 1,
            _ => false,
        } {
            match (&left.kind, &right.kind) {
                (ExpressionKind::Row(cols), ExpressionKind::Values(vs)) => {
                    proof {
                        assert(cols.values@.len() == 1);
                        assert(wf_expr_list(cols.values@, 0));
                        assert(wf_expr_list(cols.values@, 1));
                        assert(wf_expr(cols.values@[0]));
                        assert(wf_row_list(vs.rows@, 0));
                        assert(wf_expr_list(vs.rows@[0].values@, 0));
                    }
                    self.visit_expression(&cols.values[0]);
                    if negate {
                        self.emit_str(" <> ");
                    } else {
                        self.emit_str(" = ");
                    }
                    self.visit_row(&vs.rows[0]);
                },
                _ => {
                    proof {
                        assert(false);
                    }
                },
            }
        } else if matches!(&right.kind, ExpressionKind::Parameterized(_)) {
            match &right.kind {
                ExpressionKind::Parameterized(v) => {
                    self.visit_expression(left);
                    if negate {
                        self.emit_str(" <> ");
                    } else {
                        self.emit_str(" = ");
                    }
                    self.visit_parameterized(v);
                },
                _ => {},
            }
        } else if left_is_row && matches!(&right.kind, ExpressionKind::Values(_)) {
            match (&left.kind, &right.kind) {
                (ExpressionKind::Row(row), ExpressionKind::Values(vs)) => {
                    self.visit_row(row);
                    if negate {
                        self.emit_str(" NOT IN ");
                    } else {
                        self.emit_str(" IN ");
                    }
                    self.visit_values(vs);
                },
                _ => {},
            }
        } else {
            self.visit_expression(left);
            if negate {
                self.emit_str(" NOT IN ");
            } else {
                self.emit_str(" IN ");
            }
            self.visit_expression(right);
        }
        proof {
            assert(final(self).rendered() =~= old(self).rendered() + fs);
        }
    }

    /// Render a JSON or array comparison.
    #[verifier::rlimit(100)]
    fn visit_json_compare(&mut self, j: &JsonCompare)
        requires
            old(self).inv(),
            wf_json_compare(*j),
        ensures
            final(self).inv(),
            final(self).rendered() == old(self).rendered() + frags_json_compare(*j),
        decreases *j, 4int, 0int,
    {
        let ghost fs = frags_json_compare(*j);
        match j {
            JsonCompare::ArrayContains(l, r) => {
                self.visit_expression(l);
                self.emit_str(" @> ");
                self.visit_expression(r);
            },
            JsonCompare::ArrayContained(l, r) => {
                self.visit_expression(l);
                self.emit_str(" <@ ");
                self.visit_expression(r);
            },
            JsonCompare::ArrayOverlaps(l, r) => {
                self.visit_expression(l);
                self.emit_str(" && ");
                self.visit_expression(r);
            },
            JsonCompare::ArrayNotContains(l, r) => {
                self.emit_str("( NOT ");
                self.visit_expression(l);
                self.emit_str(" @> ");
                self.visit_expression(r);
                self.emit_str(" )");
            },
            JsonCompare::TypeEquals(l, t) => {
                self.emit_str("JSONB_TYPEOF(");
                self.visit_expression(l);
                self.emit_str(") = ");
                self.visit_json_type(t);
            },
            JsonCompare::TypeNotEquals(l, t) => {
                self.emit_str("JSONB_TYPEOF(");
                self.visit_expression(l);
                self.emit_str(") != ");
                self.visit_json_type(t);
            },
        }
        proof {
            assert(final(self).rendered() =~= old(self).rendered() + fs);
        }
    }

    /// Render the right side of a JSON type comparison: the type name as a
    /// text parameter, or the introspected type of another column.
    #[verifier::rlimit(100)]
    fn visit_json_type(&mut self, t: &JsonType)
        requires
            old(self).inv(),
            wf_json_type(*t),
        ensures
            final(self).inv(),
            final(self).rendered() == old(self).rendered() + frags_json_type(*t),
        decreases *t, 3int, 0int,
    {
        let ghost fs = frags_json_type(*t);
        match t {
            JsonType::Array => {
                self.visit_parameterized(&Value::Text(String::from_str("array")));
            },
            JsonType::Boolean => {
                self.visit_parameterized(&Value::Text(String::from_str("boolean")));
            },
            JsonType::Number => {
                self.visit_parameterized(&Value::Text(String::from_str("number")));
            },
            JsonType::Object => {
                self.visit_parameterized(&Value::Text(String::from_str("object")));
            },
            JsonType::String => {
                self.visit_parameterized(&Value::Text(String::from_str("string")));
            },
            JsonType::Null => {
                self.visit_parameterized(&Value::Text(String::from_str("null")));
            },
            JsonType::ColumnRef(col) => {
                self.emit_str("JSONB_TYPEOF(");
                self.visit_column(col);
                self.emit_str("::jsonb)");
            },
        }
        proof {
            assert(final(self).rendered() =~= old(self).rendered() + fs);
        }
    }

    /// Render the `ORDER BY` entries, from position `i` on.
    #[verifier::rlimit(100)]
    fn visit_ordering_at(&mut self, pairs: &Vec<OrderDefinition>, i: usize)
        requires
            old(self).inv(),
            i <= pairs@.len(),
            wf_ordering(pairs@, i as int),
        ensures
            final(self).inv(),
            final(self).rendered() == old(self).rendered() + frags_ordering(pairs@.skip(i as int)),
        decreases pairs@, 3int, pairs@.len() - i,
    {
        let ghost fs = frags_ordering(pairs@.skip(i as int));
        let len = pairs.len();
        if i < len {
            proof {
                assert(pairs@.skip(i as int)[0] == pairs@[i as int]);
                assert(pairs@.skip(i as int).drop_first() =~= pairs@.skip(i as int + 1));
                assert(pairs@.skip(i as int).len() == len - i);
            }
            self.visit_expression(&pairs[i].0);
            match &pairs[i].1 {
                Some(o) => {
                    match o {
                        Order::Asc => self.emit_str(" ASC"),
                        Order::Desc => self.emit_str(" DESC"),
                        Order::AscNullsFirst => self.emit_str("ASC NULLS FIRST"),
                        Order::AscNullsLast => self.emit_str("ASC NULLS LAST"),
                        Order::DescNullsFirst => self.emit_str("DESC NULLS FIRST"),
                        Order::DescNullsLast => self.emit_str("DESC NULLS LAST"),
                    }
                },
                None => {},
            }
            if i + 1 < len {
                self.emit_str(", ");
            }
            self.visit_ordering_at(pairs, i + 1);
        }
        proof {
            assert(final(self).rendered() =~= old(self).rendered() + fs);
        }
    }

    /// A visit in the `ORDER BY` section of the query.
    #[verifier::rlimit(100)]
    pub fn visit_ordering(&mut self, ordering: &crate::ast::Ordering)
        requires
            old(self).inv(),
            wf_ordering(ordering.0@, 0),
        ensures
            final(self).inv(),
            final(self).rendered() == old(self).rendered() + frags_ordering(ordering.0@),
        decreases ordering.0@, 4int, 0int,
    {
        proof {
            assert(ordering.0@.skip(0) =~= ordering.0@);
        }
        self.visit_ordering_at(&ordering.0, 0);
    }

    /// Render the key and value pairs of `json_build_object`, from position
    /// `i` on.
    #[verifier::rlimit(100)]
    fn visit_build_object_at(&mut self, values: &Vec<(String, Expression)>, i: usize)
        requires
            old(self).inv(),
            i <= values@.len(),
            wf_build_object_list(values@, i as int),
        ensures
            final(self).inv(),
            final(self).rendered() == old(self).rendered() + frags_build_object_list(values@, i as int),
        decreases values@, 5int, values@.len() - i,
    {
        let ghost fs = frags_build_object_list(values@, i as int);
        let len = values.len();
        if i < len {
            proof {
                reveal_strlit("'");
            }
            self.emit_str("'");
            self.emit_str(values[i].0.as_str());
            self.emit_str("', ");
            self.visit_expression(&values[i].1);
            if i + 1 < len {
                self.emit_str(", ");
            }
            self.visit_build_object_at(values, i + 1);
        }
        proof {
            assert(final(self).rendered() =~= old(self).rendered() + fs);
        }
    }

    /// Render a function call.
    #[verifier::rlimit(100)]
    pub fn visit_function(&mut self, f: &Function)
        requires
            old(self).inv(),
            wf_function(*f),
        ensures
            final(self).inv(),
            final(self).rendered() == old(self).rendered() + frags_function(*f),
        decreases *f, 6int, 1int,
    {
        let ghost fs = frags_function(*f);
        self.visit_function_type(&f.typ_);
        if let Some(a) = &f.alias {
            self.emit_str(" AS ");
            self.emit_ident(a.as_str());
        }
        proof {
            assert(final(self).rendered() =~= old(self).rendered() + fs);
        }
    }

    /// Render one function kind, before the alias.
    #[verifier::rlimit(100)]
    fn visit_function_type(&mut self, t: &FunctionType)
        requires
            old(self).inv(),
            wf_function(Function { typ_: *t, alias: None }),
        ensures
            final(self).inv(),
            final(self).rendered() == old(self).rendered() + crate::renderer::frags_function_type(*t),
        decreases *t, 6int, 0int,
    {
        let ghost fs = crate::renderer::frags_function_type(*t);
        match t {
            FunctionType::Count(c) => {
                if c.exprs.len() == 0 {
                    self.emit_str("COUNT(*)");
                } else {
                    self.emit_str("COUNT(");
                    proof {
                        assert(c.exprs@.skip(0) =~= c.exprs@);
                    }
                    self.visit_expr_list_at(&c.exprs, 0, ", ");
                    self.emit_str(")");
                }
            },
            FunctionType::AggregateToString(a) => {
                self.emit_str("ARRAY_TO_STRING(ARRAY_AGG(");
                self.visit_expression(&a.value);
                self.emit_str(")','");
                self.emit_str(")");
            },
            FunctionType::RowToJson(r) => {
                self.emit_str("ROW_TO_JSON(");
                self.visit_table(&r.expr, false);
                self.emit_str(")");
            },
            FunctionType::Average(a) => {
                self.emit_str("AVG(");
                self.visit_column(&a.column);
                self.emit_str(")");
            },
            FunctionType::Sum(su) => {
                self.emit_str("SUM(");
                self.visit_expression(&su.expr);
                self.emit_str(")");
            },
            FunctionType::Lower(l) => {
                self.emit_str("LOWER(");
                self.visit_expression(&l.expression);
                self.emit_str(")");
            },
            FunctionType::Upper(u) => {
                self.emit_str("UPPER(");
                self.visit_expression(&u.expression);
                self.emit_str(")");
            },
            FunctionType::Minimum(m) => {
                self.emit_str("MIN(");
                self.visit_column(&m.column);
                self.emit_str(")");
            },
            FunctionType::Maximum(m) => {
                self.emit_str("MAX(");
                self.visit_column(&m.column);
                self.emit_str(")");
            },
            FunctionType::Coalesce(c) => {
                self.emit_str("COALESCE(");
                proof {
                    assert(c.exprs@.skip(0) =~= c.exprs@);
                }
                self.visit_expr_list_at(&c.exprs, 0, ", ");
                self.emit_str(")");
            },
            FunctionType::JsonExtract(j) => {
                match &j.path {
                    JsonPath::Array(path) => {
                        self.emit_str("(");
                        self.visit_expression(&j.column);
                        if j.extract_as_string {
                            self.emit_str("#>>");
                        } else {
                            self.emit_str("#>");
                        }
                        self.emit_str("ARRAY[");
                        self.visit_path_list_at(path, 0);
                        self.emit_str("]::text[]");
                        self.emit_str(")");
                        if !j.extract_as_string {
                            self.emit_str("::jsonb");
                        }
                    },
                    JsonPath::String(_) => {
                        proof {
                            assert(false);
                        }
                    },
                }
            },
            FunctionType::JsonExtractFirstArrayElem(j) => {
                self.emit_str("(");
                self.visit_expression(&j.expr);
                self.emit_str("->0)");
            },
            FunctionType::JsonExtractLastArrayElem(j) => {
                self.emit_str("(");
                self.visit_expression(&j.expr);
                self.emit_str("->-1)");
            },
            FunctionType::JsonUnquote(j) => {
                self.emit_str("(");
                self.visit_expression(&j.expr);
                self.emit_str("#>>ARRAY[]::text[])");
            },
            FunctionType::ToJsonb(t) => {
                self.emit_str("to_jsonb(");
                self.visit_table(&t.table, false);
                self.emit_str(".*)");
            },
            FunctionType::JsonAgg(j) => {
                self.emit_str("json_agg(");
                if j.distinct {
                    self.emit_str("DISTINCT ");
                }
                self.visit_expression(&j.expression);
                match &j.order_by {
                    Some(o) => {
                        self.emit_str(" ORDER BY ");
                        self.visit_ordering(o);
                    },
                    None => {},
                }
                self.emit_str(")");
            },
            FunctionType::Encode(e) => {
                self.emit_str("encode(");
                self.visit_expression(&e.expression);
                self.emit_str(", ");
                match e.format {
                    crate::ast::EncodeFormat::Base64 => self.emit_str("'base64'"),
                    crate::ast::EncodeFormat::Escape => self.emit_str("'escape'"),
                    crate::ast::EncodeFormat::Hex => self.emit_str("'hex'"),
                }
                self.emit_str(")");
            },
            FunctionType::JsonBuildObject(j) => {
                self.emit_str("json_build_object(");
                self.visit_build_object_at(&j.values, 0);
                self.emit_str(")");
            },
            FunctionType::Concat(c) => {
                self.emit_str("(");
                proof {
                    assert(c.exprs@.skip(0) =~= c.exprs@);
                }
                self.visit_expr_list_at(&c.exprs, 0, " || ");
                self.emit_str(")");
            },
        }
        proof {
            assert(final(self).rendered() =~= old(self).rendered() + fs);
        }
    }

    /// Render the `WITH` list, from position `i` on.
    #[verifier::rlimit(100)]
    fn visit_cte_list_at(&mut self, cs: &Vec<CommonTableExpression>, i: usize)
        requires
            old(self).inv(),
            i <= cs@.len(),
            wf_cte_list(cs@, i as int),
        ensures
            final(self).inv(),
            final(self).rendered() == old(self).rendered() + frags_cte_list(cs@, i as int),
        decreases cs@, 2int, cs@.len() - i,
    {
        let ghost fs = frags_cte_list(cs@, i as int);
        let len = cs.len();
        if i < len {
            self.emit_ident(cs[i].name.as_str());
            self.emit_str(" AS (");
            self.visit_query(&cs[i].query);
            self.emit_str(")");
            if i + 1 < len {
                self.emit_str(", ");
            }
            self.visit_cte_list_at(cs, i + 1);
        }
        proof {
            assert(final(self).rendered() =~= old(self).rendered() + fs);
        }
    }

    /// A walk through a `SELECT` statement.
    #[verifier::rlimit(100)]
    pub fn visit_select(&mut self, s: &Select)
        requires
            old(self).inv(),
            wf_select(*s),
        ensures
            final(self).inv(),
            final(self).rendered() == old(self).rendered() + frags_select(*s),
        decreases *s, 1int, 1int,
    {
        let ghost fs = frags_select(*s);
        if s.ctes.len() > 0 {
            self.emit_str("WITH ");
            self.visit_cte_list_at(&s.ctes, 0);
            self.emit_str(" ");
        }
        self.emit_str("SELECT ");
        if s.distinct {
            self.emit_str("DISTINCT ");
        }
        if s.tables.len() > 0 {
            self.visit_select_core(s);
        } else if s.columns.len() == 0 {
            self.emit_str(" *");
        } else {
            proof {
                assert(s.columns@.skip(0) =~= s.columns@);
            }
            self.visit_expr_list_at(&s.columns, 0, ", ");
        }
        proof {
            assert(final(self).rendered() =~= old(self).rendered() + fs);
        }
    }

    /// The body of a `SELECT` with source tables: the projection, the `FROM`
    /// list with its joins, and the filtering, grouping, ordering and
    /// windowing sections.
    #[verifier::rlimit(100)]
    fn visit_select_core(&mut self, s: &Select)
        requires
            old(self).inv(),
            wf_select(*s),
            s.tables@.len() > 0,
        ensures
            final(self).inv(),
            final(self).rendered() == old(self).rendered() + crate::renderer::frags_select_core(*s),
        decreases *s, 1int, 0int,
    {
        let ghost fs = crate::renderer::frags_select_core(*s);
        if s.columns.len() == 0 {
            self.visit_projection_at(&s.tables, 0);
        } else {
            proof {
                assert(s.columns@.skip(0) =~= s.columns@);
            }
            self.visit_expr_list_at(&s.columns, 0, ", ");
        }
        self.emit_str(" FROM ");
        proof {
            assert(s.tables@.skip(0) =~= s.tables@);
        }
        self.visit_table_list_at(&s.tables, 0);
        proof {
            assert(s.joins@.skip(0) =~= s.joins@);
        }
        self.visit_joins_at(&s.joins, 0);
        self.visit_select_tail(s);
        proof {
            assert(final(self).rendered() =~= old(self).rendered() + fs);
        }
    }

    /// Render the filtering, grouping, ordering and windowing sections of a
    /// `SELECT`.
    #[verifier::rlimit(100)]
    fn visit_select_tail(&mut self, s: &Select)
        requires
            old(self).inv(),
            wf_select(*s),
        ensures
            final(self).inv(),
            final(self).rendered() == old(self).rendered() + crate::renderer::frags_select_tail(*s),
        decreases *s, 0int, 1int,
    {
        let ghost fs = crate::renderer::frags_select_tail(*s);
        self.visit_opt_conditions(&s.conditions, " WHERE ");
        if s.grouping.0.len() > 0 {
            self.emit_str(" GROUP BY ");
            proof {
                assert(s.grouping.0@.skip(0) =~= s.grouping.0@);
            }
            self.visit_expr_list_at(&s.grouping.0, 0, ", ");
        }
        proof {
            assert(self.rendered() =~= old(self).rendered()
                + crate::renderer::keyword_conditions_frags(s.conditions, " WHERE "@)
                + crate::renderer::grouping_frags(*s));
        }
        self.visit_opt_conditions(&s.having, " HAVING ");
        if s.ordering.0.len() > 0 {
            self.emit_str(" ORDER BY ");
            proof {
                assert(s.ordering.0@.skip(0) =~= s.ordering.0@);
            }
            self.visit_ordering_at(&s.ordering.0, 0);
        }
        self.visit_limit_and_offset(s.limit, s.offset);
        proof {
            assert(final(self).rendered() =~= old(self).rendered() + fs);
        }
    }

    /// Render an optional condition tree after its keyword.
    fn visit_opt_conditions(&mut self, c: &Option<ConditionTree>, kw: &str)
        requires
            old(self).inv(),
            c matches Some(t) ==> wf_conditions(*t),
        ensures
            final(self).inv(),
            final(self).rendered() == old(self).rendered()
                + crate::renderer::keyword_conditions_frags(*c, kw@),
        decreases *c, 4int, 0int,
    {
        let ghost fs = crate::renderer::keyword_conditions_frags(*c, kw@);
        match c {
            Some(t) => {
                self.emit_str(kw);
                self.visit_conditions(t);
            },
            None => {},
        }
        proof {
            assert(final(self).rendered() =~= old(self).rendered() + fs);
        }
    }

    /// Render a `RETURNING` column list separated by `sep`, from position
    /// `i` on.
    #[verifier::rlimit(100)]
    fn visit_column_list_at(&mut self, cols: &Vec<Column>, i: usize, sep: &str)
        requires
            old(self).inv(),
            i <= cols@.len(),
            wf_column_list(cols@, i as int),
        ensures
            final(self).inv(),
            final(self).rendered() == old(self).rendered() + frags_column_list(cols@.skip(i as int), sep@),
        decreases cols@, 2int, cols@.len() - i,
    {
        let ghost fs = frags_column_list(cols@.skip(i as int), sep@);
        let len = cols.len();
        if i < len {
            proof {
                assert(cols@.skip(i as int)[0] == cols@[i as int]);
                assert(cols@.skip(i as int).drop_first() =~= cols@.skip(i as int + 1));
                assert(cols@.skip(i as int).len() == len - i);
            }
            self.visit_column(&cols[i]);
            if i + 1 < len {
                self.emit_str(sep);
                self.visit_column_list_at(cols, i + 1, sep);
            }
        }
        proof {
            assert(final(self).rendered() =~= old(self).rendered() + fs);
        }
    }

    /// Render the `RETURNING` clause, when columns were asked for.
    #[verifier::rlimit(100)]
    fn visit_returning(&mut self, returning: &Option<Vec<Column>>)
        requires
            old(self).inv(),
            returning matches Some(cols) ==> wf_column_list(cols@, 0),
        ensures
            final(self).inv(),
            final(self).rendered() == old(self).rendered() + returning_frags(*returning),
        decreases *returning, 3int, 0int,
    {
        let ghost fs = returning_frags(*returning);
        match returning {
            Some(cols) => {
                if cols.len() > 0 {
                    self.emit_str(" RETURNING ");
                    proof {
                        assert(cols@.skip(0) =~= cols@);
                    }
                    self.visit_column_list_at(cols, 0, ", ");
                }
            },
            None => {},
        }
        proof {
            assert(final(self).rendered() =~= old(self).rendered() + fs);
        }
    }

    /// Render the assignment list of an `UPDATE`, from position `i` on.
    #[verifier::rlimit(100)]
    fn visit_assignments_at(&mut self, u: &Update, i: usize)
        requires
            old(self).inv(),
            i <= assign_count(*u),
            wf_assignments(*u, i as int),
        ensures
            final(self).inv(),
            final(self).rendered() == old(self).rendered() + frags_assignments(*u, i as int),
        decreases *u, 1int, assign_count(*u) - i,
    {
        let ghost fs = frags_assignments(*u, i as int);
        let len = if u.columns.len() <= u.values.len() { u.columns.len() } else { u.values.len() };
        if i < len {
            self.visit_column(&u.columns[i]);
            self.emit_str(" = ");
            self.visit_expression(&u.values[i]);
            if i + 1 < len {
                self.emit_str(", ");
            }
            self.visit_assignments_at(u, i + 1);
        }
        proof {
            assert(final(self).rendered() =~= old(self).rendered() + fs);
        }
    }

    /// A walk through an `UPDATE` statement.
    #[verifier::rlimit(100)]
    pub fn visit_update(&mut self, u: &Update)
        requires
            old(self).inv(),
            wf_update(*u),
        ensures
            final(self).inv(),
            final(self).rendered() == old(self).rendered() + frags_update(*u),
        decreases *u, 2int, 1int,
    {
        let ghost fs = frags_update(*u);
        self.emit_str("UPDATE ");
        self.visit_table(&u.table, true);
        self.emit_str(" SET ");
        self.visit_assignments_at(u, 0);
        match &u.conditions {
            Some(c) => {
                self.emit_str(" WHERE ");
                self.visit_conditions(c);
            },
            None => {},
        }
        self.visit_returning(&u.returning);
        proof {
            assert(final(self).rendered() =~= old(self).rendered() + fs);
        }
    }

    /// Render the conflict-resolution `UPDATE` of an upsert: `SET`, the
    /// assignments and the `WHERE` alone, with no table of its own, since it
    /// nests inside the `INSERT`'s conflict clause.
    #[verifier::rlimit(100)]
    pub fn visit_upsert(&mut self, u: &Update)
        requires
            old(self).inv(),
            wf_update(*u),
        ensures
            final(self).inv(),
            final(self).rendered() == old(self).rendered() + frags_upsert(*u),
        decreases *u, 2int, 1int,
    {
        let ghost fs = frags_upsert(*u);
        self.emit_str("UPDATE ");
        self.emit_str("SET ");
        self.visit_assignments_at(u, 0);
        match &u.conditions {
            Some(c) => {
                self.emit_str(" WHERE ");
                self.visit_conditions(c);
            },
            None => {},
        }
        proof {
            assert(final(self).rendered() =~= old(self).rendered() + fs);
        }
    }

    /// A walk through a `DELETE` statement.
    #[verifier::rlimit(100)]
    pub fn visit_delete(&mut self, d: &Delete)
        requires
            old(self).inv(),
            wf_delete(*d),
        ensures
            final(self).inv(),
            final(self).rendered() == old(self).rendered() + frags_delete(*d),
        decreases *d, 1int, 0int,
    {
        let ghost fs = frags_delete(*d);
        self.emit_str("DELETE FROM ");
        self.visit_table(&d.table, true);
        match &d.conditions {
            Some(c) => {
                self.emit_str(" WHERE ");
                self.visit_conditions(c);
            },
            None => {},
        }
        proof {
            assert(final(self).rendered() =~= old(self).rendered() + fs);
        }
    }

    /// A walk through an `INSERT` statement.
    #[verifier::rlimit(100)]
    pub fn visit_insert(&mut self, ins: &Insert)
        requires
            old(self).inv(),
            wf_insert(*ins),
        ensures
            final(self).inv(),
            final(self).rendered() == old(self).rendered() + frags_insert(*ins),
        decreases *ins, 3int, 1int,
    {
        let ghost fs = frags_insert(*ins);
        self.emit_str("INSERT ");
        match &ins.table {
            Some(t) => {
                self.emit_str("INTO ");
                self.visit_table(t, true);
            },
            None => {},
        }
        proof {
            assert(self.rendered() =~= old(self).rendered()
                + seq![Frag::Str("INSERT "@)]
                + crate::renderer::insert_table_frags(ins.table));
        }
        self.visit_insert_values(ins);
        self.visit_on_conflict(&ins.on_conflict);
        self.visit_returning(&ins.returning);
        proof {
            assert(final(self).rendered() =~= old(self).rendered() + fs);
        }
    }

    /// Render the conflict clause of an `INSERT`.
    fn visit_on_conflict(&mut self, c: &Option<OnConflict>)
        requires
            old(self).inv(),
            c matches Some(oc) ==> (oc matches OnConflict::Update(u, _) ==> wf_update(*u)),
        ensures
            final(self).inv(),
            final(self).rendered() == old(self).rendered()
                + crate::renderer::on_conflict_frags(*c),
        decreases *c, 3int, 0int,
    {
        let ghost fs = crate::renderer::on_conflict_frags(*c);
        match c {
            Some(OnConflict::DoNothing) => {
                self.emit_str(" ON CONFLICT DO NOTHING");
            },
            Some(OnConflict::Update(u, cols)) => {
                self.emit_str(" ON CONFLICT (");
                self.visit_bare_columns_at(cols, 0);
                self.emit_str(") DO ");
                self.visit_upsert(u);
            },
            None => {},
        }
        proof {
            assert(final(self).rendered() =~= old(self).rendered() + fs);
        }
    }

    /// Render the values of an `INSERT`: an empty row stands for `DEFAULT
    /// VALUES`, a row or a literal row set brings the bracketed column list
    /// first, any other expression renders in parentheses.
    #[verifier::rlimit(100)]
    fn visit_insert_values(&mut self, ins: &Insert)
        requires
            old(self).inv(),
            wf_insert(*ins),
        ensures
            final(self).inv(),
            final(self).rendered() == old(self).rendered() + crate::renderer::frags_insert_values(*ins),
        decreases *ins, 3int, 0int,
    {
        let ghost fs = crate::renderer::frags_insert_values(*ins);
        match &ins.values.kind {
            ExpressionKind::Row(row) => {
                if row.values.len() == 0 {
                    self.emit_str(" DEFAULT VALUES");
                } else {
                    proof {
                        assert(wf_expr_list(row.values@, 0));
                    }
                    self.emit_str(" (");
                    self.visit_bare_columns_at(&ins.columns, 0);
                    self.emit_str(") VALUES ");
                    self.visit_row(row);
                }
            },
            ExpressionKind::Values(vs) => {
                self.emit_str(" (");
                self.visit_bare_columns_at(&ins.columns, 0);
                self.emit_str(") VALUES ");
                proof {
                    assert(vs.rows@.skip(0) =~= vs.rows@);
                    assert(wf_row_list(vs.rows@, 0));
                }
                self.visit_row_list_at(&vs.rows, 0, ", ");
            },
            _ => {
                self.emit_str("(");
                self.visit_expression(&ins.values);
                self.emit_str(")");
            },
        }
        proof {
            assert(final(self).rendered() =~= old(self).rendered() + fs);
        }
    }

    /// A walk through a complete query.
    #[verifier::rlimit(100)]
    pub fn visit_query(&mut self, q: &Query)
        requires
            old(self).inv(),
            wf_query(*q),
        ensures
            final(self).inv(),
            final(self).rendered() == old(self).rendered() + frags_query(*q),
        decreases *q, 0int, 0int,
    {
        let ghost fs = frags_query(*q);
        match q {
            Query::Select(s) => self.visit_select(s),
            Query::Insert(i) => self.visit_insert(i),
            Query::Update(u) => self.visit_update(u),
            Query::Delete(d) => self.visit_delete(d),
        }
        proof {
            assert(final(self).rendered() =~= old(self).rendered() + fs);
        }
    }

    /// Lower the query into SQL text and the values bound to its
    /// placeholders, in placeholder order. One call owns its accumulators
    /// exclusively; calls are independent of each other.
    pub fn build(query: Query) -> (r: (String, Vec<Value>))
        requires
            wf_query(query),
        ensures
            r.0@ == render_text(query),
            crate::ast::values_view(r.1@) == render_params(query),
    {
        let mut visitor = Postgres {
            query: String::new(),
            parameters: Vec::new(),
            frags: Ghost(Seq::empty()),
        };
        proof {
            assert(crate::ast::values_view(visitor.parameters@) =~= Seq::<ValueV>::empty());
            assert(visitor.inv());
        }
        visitor.visit_query(&query);
        proof {
            assert(visitor.frags@ =~= frags_query(query));
        }
        (visitor.query, visitor.parameters)
    }
}

} // verus!

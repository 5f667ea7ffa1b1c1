use vstd::prelude::*;
use crate::ast::column::Column;
use crate::ast::common_table_expression::CommonTableExpression;
use crate::ast::conditions::{anded, ored, ConditionTree};
use crate::ast::expression::{Expression, ExpressionKind};
use crate::ast::grouping::Grouping;
use crate::ast::join::{Join, JoinData};
use crate::ast::ordering::{OrderDefinition, Ordering};
use crate::ast::table::Table;

verus! {

/// A `SELECT` statement under construction.
#[derive(Debug)]
pub struct Select {
    pub ctes: Vec<CommonTableExpression>,
    pub distinct: bool,
    pub tables: Vec<Table>,
    pub columns: Vec<Expression>,
    pub conditions: Option<ConditionTree>,
    pub ordering: Ordering,
    pub grouping: Grouping,
    pub having: Option<ConditionTree>,
    pub limit: Option<u32>,
    pub offset: Option<u32>,
    pub joins: Vec<Join>,
    pub comment: Option<String>,
}

/// The parts of two `SELECT` statements not named are the same.
pub open spec fn same_select_except(
    a: Select,
    b: Select,
    ctes: bool,
    distinct: bool,
    tables: bool,
    columns: bool,
    conditions: bool,
    ordering: bool,
    grouping: bool,
    having: bool,
    limit: bool,
    offset: bool,
    joins: bool,
) -> bool {
    &&& (!ctes ==> a.ctes == b.ctes)
    &&& (!distinct ==> a.distinct == b.distinct)
    &&& (!tables ==> a.tables == b.tables)
    &&& (!columns ==> a.columns == b.columns)
    &&& (!conditions ==> a.conditions == b.conditions)
    &&& (!ordering ==> a.ordering == b.ordering)
    &&& (!grouping ==> a.grouping == b.grouping)
    &&& (!having ==> a.having == b.having)
    &&& (!limit ==> a.limit == b.limit)
    &&& (!offset ==> a.offset == b.offset)
    &&& (!joins ==> a.joins == b.joins)
    &&& a.comment == b.comment
}

/// Only the tables differ.
pub open spec fn same_select_but_tables(a: Select, b: Select) -> bool {
    same_select_except(a, b, false, false, true, false, false, false, false, false, false, false, false)
}

/// Only the projected columns differ.
pub open spec fn same_select_but_columns(a: Select, b: Select) -> bool {
    same_select_except(a, b, false, false, false, true, false, false, false, false, false, false, false)
}

/// Only the conditions differ.
pub open spec fn same_select_but_conditions(a: Select, b: Select) -> bool {
    same_select_except(a, b, false, false, false, false, true, false, false, false, false, false, false)
}

/// Only the joins differ.
pub open spec fn same_select_but_joins(a: Select, b: Select) -> bool {
    same_select_except(a, b, false, false, false, false, false, false, false, false, false, false, true)
}

impl Select {
    /// A `SELECT` over the given table.
    pub fn from_table(table: Table) -> (r: Select)
        ensures
            r.tables@ == seq![table],
            r.ctes@ == Seq::<CommonTableExpression>::empty(),
            !r.distinct,
            r.columns@ == Seq::<Expression>::empty(),
            r.conditions is None,
            r.ordering.0@ == Seq::<OrderDefinition>::empty(),
            r.grouping.0@ == Seq::<Expression>::empty(),
            r.having is None,
            r.limit is None,
            r.offset is None,
            r.joins@ == Seq::<Join>::empty(),
            r.comment is None,
    {
        let mut tables: Vec<Table> = Vec::new();
        tables.push(table);
        let mut r = Select::default();
        r.tables = tables;
        r
    }

    /// Add a table to select from.
    pub fn and_from(&mut self, table: Table)
        ensures
            final(self).tables@ == old(self).tables@.push(table),
            same_select_but_tables(*old(self), *final(self)),
    {
        self.tables.push(table);
    }

    /// Select a value as a column.
    pub fn value(&mut self, value: Expression)
        ensures
            final(self).columns@ == old(self).columns@.push(value),
            same_select_but_columns(*old(self), *final(self)),
    {
        self.columns.push(value);
    }

    /// Add a column to be selected.
    pub fn column(&mut self, column: Column)
        ensures
            final(self).columns@.len() == old(self).columns@.len() + 1,
            final(self).columns@.drop_last() == old(self).columns@,
            final(self).columns@.last().kind matches ExpressionKind::Column(c) && c == column,
            final(self).columns@.last().alias is None,
            same_select_but_columns(*old(self), *final(self)),
    {
        self.columns.push(Expression { kind: ExpressionKind::Column(Box::new(column)), alias: None });
    }

    /// Select the given columns, replacing what was selected before.
    pub fn columns(&mut self, columns: Vec<Column>)
        ensures
            final(self).columns@.len() == columns@.len(),
            forall|i: int| 0 <= i < columns@.len() ==> {
                &&& (#[trigger] final(self).columns@[i]).kind matches ExpressionKind::Column(c)
                    && c == columns@[i]
                &&& final(self).columns@[i].alias is None
            },
            same_select_but_columns(*old(self), *final(self)),
    {
        let ghost all = columns@;
        let mut rest = columns;
        let mut exprs: Vec<Expression> = Vec::new();
        while rest.len() > 0
            invariant
                exprs@.len() + rest@.len() == all.len(),
                rest@ =~= all.skip(exprs@.len() as int),
                forall|j: int| 0 <= j < exprs@.len() ==> {
                    &&& (#[trigger] exprs@[j]).kind matches ExpressionKind::Column(c) && c == all[j]
                    &&& exprs@[j].alias is None
                },
            decreases rest@.len(),
        {
            let c = rest.remove(0);
            exprs.push(Expression { kind: ExpressionKind::Column(Box::new(c)), alias: None });
        }
        self.columns = exprs;
    }

    /// Ask for `DISTINCT` rows.
    pub fn distinct(&mut self)
        ensures
            final(self).distinct,
            same_select_except(*old(self), *final(self), false, true, false, false, false, false, false, false, false, false, false),
    {
        self.distinct = true;
    }

    /// Set the `WHERE` conditions, replacing any previous ones.
    pub fn so_that(&mut self, conditions: ConditionTree)
        ensures
            final(self).conditions matches Some(c) && c == conditions,
            same_select_but_conditions(*old(self), *final(self)),
    {
        self.conditions = Some(conditions);
    }

    /// Add a `WHERE` condition, combining it with any previous one under
    /// `AND`.
    pub fn and_where(&mut self, conditions: ConditionTree)
        ensures
            match old(self).conditions {
                Some(previous) => final(self).conditions matches Some(c)
                    && anded(previous, crate::ast::conditions::tree_expr(conditions), c),
                None => final(self).conditions matches Some(c) && c == conditions,
            },
            same_select_but_conditions(*old(self), *final(self)),
    {
        match self.conditions.take() {
            Some(previous) => {
                self.conditions = Some(previous.and(conditions.into_expression()));
            },
            None => self.so_that(conditions),
        }
    }

    /// Add a `WHERE` condition, combining it with any previous one under
    /// `OR`.
    pub fn or_where(&mut self, conditions: ConditionTree)
        ensures
            match old(self).conditions {
                Some(previous) => final(self).conditions matches Some(c)
                    && ored(previous, crate::ast::conditions::tree_expr(conditions), c),
                None => final(self).conditions matches Some(c) && c == conditions,
            },
            same_select_but_conditions(*old(self), *final(self)),
    {
        match self.conditions.take() {
            Some(previous) => {
                self.conditions = Some(previous.or(conditions.into_expression()));
            },
            None => self.so_that(conditions),
        }
    }

    /// Add an `INNER JOIN` at the statement level.
    pub fn inner_join(&mut self, join: JoinData)
        ensures
            final(self).joins@ == old(self).joins@.push(Join::Inner(join)),
            same_select_but_joins(*old(self), *final(self)),
    {
        self.joins.push(Join::Inner(join));
    }

    /// Add a `LEFT JOIN` at the statement level.
    pub fn left_join(&mut self, join: JoinData)
        ensures
            final(self).joins@ == old(self).joins@.push(Join::Left(join)),
            same_select_but_joins(*old(self), *final(self)),
    {
        self.joins.push(Join::Left(join));
    }

    /// Add a `RIGHT JOIN` at the statement level.
    pub fn right_join(&mut self, join: JoinData)
        ensures
            final(self).joins@ == old(self).joins@.push(Join::Right(join)),
            same_select_but_joins(*old(self), *final(self)),
    {
        self.joins.push(Join::Right(join));
    }

    /// Add a `FULL JOIN` at the statement level.
    pub fn full_join(&mut self, join: JoinData)
        ensures
            final(self).joins@ == old(self).joins@.push(Join::Full(join)),
            same_select_but_joins(*old(self), *final(self)),
    {
        self.joins.push(Join::Full(join));
    }

    /// Add an entry to the `ORDER BY` section.
    pub fn order_by(&mut self, value: OrderDefinition)
        ensures
            final(self).ordering.0@ == old(self).ordering.0@.push(value),
            same_select_except(*old(self), *final(self), false, false, false, false, false, true, false, false, false, false, false),
    {
        self.ordering.append(value);
    }

    /// Add an expression to the `GROUP BY` section.
    pub fn group_by(&mut self, value: Expression)
        ensures
            final(self).grouping.0@ == old(self).grouping.0@.push(value),
            same_select_except(*old(self), *final(self), false, false, false, false, false, false, true, false, false, false, false),
    {
        self.grouping.append(value);
    }

    /// Set the `HAVING` conditions, replacing any previous ones.
    pub fn having(&mut self, conditions: ConditionTree)
        ensures
            final(self).having matches Some(c) && c == conditions,
            same_select_except(*old(self), *final(self), false, false, false, false, false, false, false, true, false, false, false),
    {
        self.having = Some(conditions);
    }

    /// Set the `LIMIT`.
    pub fn limit(&mut self, limit: u32)
        ensures
            final(self).limit matches Some(l) && l == limit,
            same_select_except(*old(self), *final(self), false, false, false, false, false, false, false, false, true, false, false),
    {
        self.limit = Some(limit);
    }

    /// Set the `OFFSET`.
    pub fn offset(&mut self, offset: u32)
        ensures
            final(self).offset matches Some(o) && o == offset,
            same_select_except(*old(self), *final(self), false, false, false, false, false, false, false, false, false, true, false),
    {
        self.offset = Some(offset);
    }

    /// Attach a common table expression.
    pub fn with(&mut self, cte: CommonTableExpression)
        ensures
            final(self).ctes@ == old(self).ctes@.push(cte),
            same_select_except(*old(self), *final(self), true, false, false, false, false, false, false, false, false, false, false),
    {
        self.ctes.push(cte);
    }
}

impl Default for Select {
    /// A `SELECT` with nothing set.
    fn default() -> (r: Select)
        ensures
            r.ctes@ == Seq::<CommonTableExpression>::empty(),
            !r.distinct,
            r.tables@ == Seq::<Table>::empty(),
            r.columns@ == Seq::<Expression>::empty(),
            r.conditions is None,
            r.ordering.0@ == Seq::<OrderDefinition>::empty(),
            r.grouping.0@ == Seq::<Expression>::empty(),
            r.having is None,
            r.limit is None,
            r.offset is None,
            r.joins@ == Seq::<Join>::empty(),
            r.comment is None,
    {
        Select {
            ctes: Vec::new(),
            distinct: false,
            tables: Vec::new(),
            columns: Vec::new(),
            conditions: None,
            ordering: Ordering(Vec::new()),
            grouping: Grouping(Vec::new()),
            having: None,
            limit: None,
            offset: None,
            joins: Vec::new(),
            comment: None,
        }
    }
}

} // verus!

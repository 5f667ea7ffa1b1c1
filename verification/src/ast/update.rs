use vstd::prelude::*;
use crate::ast::column::Column;
use crate::ast::conditions::ConditionTree;
use crate::ast::expression::Expression;
use crate::ast::table::Table;

verus! {

/// An `UPDATE` statement under construction: parallel lists of assigned
/// columns and their values.
#[derive(Debug)]
pub struct Update {
    pub table: Table,
    pub columns: Vec<Column>,
    pub values: Vec<Expression>,
    pub conditions: Option<ConditionTree>,
    pub returning: Option<Vec<Column>>,
}

impl Update {
    /// The basis of an `UPDATE` of the given table.
    pub fn table(table: Table) -> (r: Update)
        ensures
            r.table == table,
            r.columns@ == Seq::<Column>::empty(),
            r.values@ == Seq::<Expression>::empty(),
            r.conditions is None,
            r.returning is None,
    {
        Update { table, columns: Vec::new(), values: Vec::new(), conditions: None, returning: None }
    }

    /// Add one column assignment.
    pub fn set(self, column: Column, value: Expression) -> (r: Update)
        ensures
            r.table == self.table,
            r.columns@ == self.columns@.push(column),
            r.values@ == self.values@.push(value),
            r.conditions == self.conditions,
            r.returning == self.returning,
    {
        let mut columns = self.columns;
        let mut values = self.values;
        columns.push(column);
        values.push(value);
        Update { table: self.table, columns, values, conditions: self.conditions, returning: self.returning }
    }

    /// Set the `WHERE` conditions, replacing any previous ones.
    pub fn so_that(self, conditions: ConditionTree) -> (r: Update)
        ensures
            r.table == self.table,
            r.columns == self.columns,
            r.values == self.values,
            r.conditions matches Some(c) && c == conditions,
            r.returning == self.returning,
    {
        Update {
            table: self.table,
            columns: self.columns,
            values: self.values,
            conditions: Some(conditions),
            returning: self.returning,
        }
    }

    /// Set the columns handed back by `RETURNING`.
    pub fn returning(self, columns: Vec<Column>) -> (r: Update)
        ensures
            r.table == self.table,
            r.columns == self.columns,
            r.values == self.values,
            r.conditions == self.conditions,
            r.returning matches Some(c) && c == columns,
    {
        Update {
            table: self.table,
            columns: self.columns,
            values: self.values,
            conditions: self.conditions,
            returning: Some(columns),
        }
    }
}

} // verus!

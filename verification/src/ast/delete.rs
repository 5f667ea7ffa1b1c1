use vstd::prelude::*;
use crate::ast::conditions::ConditionTree;
use crate::ast::table::Table;

verus! {

/// A `DELETE` statement under construction.
#[derive(Debug)]
pub struct Delete {
    pub table: Table,
    pub conditions: Option<ConditionTree>,
}

impl Delete {
    /// A `DELETE` from the given table.
    pub fn from_table(table: Table) -> (r: Delete)
        ensures
            r.table == table,
            r.conditions is None,
    {
        Delete { table, conditions: None }
    }

    /// Set the `WHERE` conditions, replacing any previous ones.
    pub fn so_that(self, conditions: ConditionTree) -> (r: Delete)
        ensures
            r.table == self.table,
            r.conditions matches Some(c) && c == conditions,
    {
        Delete { table: self.table, conditions: Some(conditions) }
    }
}

} // verus!

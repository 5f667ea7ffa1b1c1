use vstd::prelude::*;
use crate::ast::conditions::ConditionTree;
use crate::ast::table::Table;

verus! {

/// The table a join brings in and the conditions it joins on.
#[derive(Debug)]
pub struct JoinData {
    pub table: Table,
    pub conditions: ConditionTree,
    pub lateral: bool,
}

impl JoinData {
    /// A join with no conditions: every pair of rows qualifies.
    pub fn all_from(table: Table) -> (r: JoinData)
        ensures
            r.table == table,
            r.conditions is NoCondition,
            !r.lateral,
    {
        JoinData { table, conditions: ConditionTree::NoCondition, lateral: false }
    }

    /// Turn the join into a lateral join.
    pub fn lateral(&mut self)
        ensures
            final(self).table == old(self).table,
            final(self).conditions == old(self).conditions,
            final(self).lateral,
    {
        self.lateral = true;
    }

    /// Add conditions to the join: a join without any takes them as they
    /// are, one that already has some combines both sides with `AND`.
    pub fn on(self, conditions: ConditionTree) -> (r: JoinData)
        ensures
            r.table == self.table,
            !r.lateral,
            self.conditions is NoCondition ==> r.conditions == conditions,
            !(self.conditions is NoCondition) ==> crate::ast::conditions::anded(
                self.conditions, crate::ast::conditions::tree_expr(conditions), r.conditions),
    {
        let conditions = match self.conditions {
            ConditionTree::NoCondition => conditions,
            cond => cond.and(conditions.into_expression()),
        };
        JoinData { table: self.table, conditions, lateral: false }
    }
}

/// A `JOIN` clause: the kind of join, with its table and conditions.
#[derive(Debug)]
pub enum Join {
    /// An `INNER JOIN`.
    Inner(JoinData),
    /// A `LEFT JOIN`.
    Left(JoinData),
    /// A `RIGHT JOIN`.
    Right(JoinData),
    /// A `FULL JOIN`.
    Full(JoinData),
}

impl From<Table> for JoinData {
    fn from(table: Table) -> (r: JoinData)
        ensures
            r.table == table,
            r.conditions is NoCondition,
            !r.lateral,
    {
        JoinData::all_from(table)
    }
}

impl vstd::std_specs::convert::FromSpecImpl<Table> for JoinData {
    open spec fn obeys_from_spec() -> bool {
        false
    }

    open spec fn from_spec(table: Table) -> JoinData {
        arbitrary()
    }
}

} // verus!

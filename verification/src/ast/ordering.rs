use vstd::prelude::*;
use crate::ast::expression::Expression;

verus! {

/// A sort direction.
#[derive(Debug, Clone, Copy, PartialEq, Eq, Structural)]
pub enum Order {
    /// Ascending.
    Asc,
    /// Descending.
    Desc,
    /// Ascending, nulls first.
    AscNullsFirst,
    /// Ascending, nulls last.
    AscNullsLast,
    /// Descending, nulls first.
    DescNullsFirst,
    /// Descending, nulls last.
    DescNullsLast,
}

/// One `ORDER BY` entry: an expression with an optional direction.
pub type OrderDefinition = (Expression, Option<Order>);

/// The ordered list of `ORDER BY` entries; order is significant and kept.
#[derive(Debug)]
pub struct Ordering(pub Vec<OrderDefinition>);

impl Ordering {
    /// An ordering out of the given entries.
    pub fn new(values: Vec<OrderDefinition>) -> (r: Ordering)
        ensures
            r.0 == values,
    {
        Ordering(values)
    }

    /// Add an entry at the end of the ordering.
    pub fn append(&mut self, value: OrderDefinition)
        ensures
            final(self).0@ == old(self).0@.push(value),
    {
        self.0.push(value);
    }

    /// Whether the ordering holds no entries.
    pub fn is_empty(&self) -> (r: bool)
        ensures
            r == (self.0@.len() == 0),
    {
        self.0.len() == 0
    }
}

impl Default for Ordering {
    /// An empty ordering.
    fn default() -> (r: Ordering)
        ensures
            r.0@ == Seq::<OrderDefinition>::empty(),
    {
        Ordering(Vec::new())
    }
}

} // verus!

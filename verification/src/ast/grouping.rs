use vstd::prelude::*;
use crate::ast::expression::Expression;

verus! {

/// The ordered list of `GROUP BY` expressions; order is significant and kept.
#[derive(Debug)]
pub struct Grouping(pub Vec<Expression>);

impl Grouping {
    /// A grouping out of the given expressions.
    pub fn new(values: Vec<Expression>) -> (r: Grouping)
        ensures
            r.0 == values,
    {
        Grouping(values)
    }

    /// Add an expression at the end of the grouping.
    pub fn append(&mut self, value: Expression)
        ensures
            final(self).0@ == old(self).0@.push(value),
    {
        self.0.push(value);
    }

    /// Whether the grouping holds no expressions.
    pub fn is_empty(&self) -> (r: bool)
        ensures
            r == (self.0@.len() == 0),
    {
        self.0.len() == 0
    }
}

impl Default for Grouping {
    /// An empty grouping.
    fn default() -> (r: Grouping)
        ensures
            r.0@ == Seq::<Expression>::empty(),
    {
        Grouping(Vec::new())
    }
}

} // verus!

use vstd::prelude::*;
use crate::ast::expression::Expression;

verus! {

/// A row of expressions, rendered inside parentheses: `(a, b, c)`.
#[derive(Debug)]
pub struct Row {
    pub values: Vec<Expression>,
}

impl Row {
    /// An empty row.
    pub fn new() -> (r: Row)
        ensures
            r.values@ == Seq::<Expression>::empty(),
    {
        Row { values: Vec::new() }
    }

    /// Add a value at the end of the row.
    pub fn push(&mut self, value: Expression)
        ensures
            final(self).values@ == old(self).values@.push(value),
    {
        self.values.push(value);
    }

    /// How many values the row holds.
    pub fn len(&self) -> (r: usize)
        ensures
            r == self.values@.len(),
    {
        self.values.len()
    }

    /// Whether the row holds no values.
    pub fn is_empty(&self) -> (r: bool)
        ensures
            r == (self.values@.len() == 0),
    {
        self.values.len() == 0
    }
}

impl From<Vec<Expression>> for Row {
    fn from(values: Vec<Expression>) -> (r: Row)
        ensures
            r.values == values,
    {
        Row { values }
    }
}

impl vstd::std_specs::convert::FromSpecImpl<Vec<Expression>> for Row {
    open spec fn obeys_from_spec() -> bool {
        true
    }

    open spec fn from_spec(values: Vec<Expression>) -> Row {
        Row { values }
    }
}

} // verus!

use vstd::prelude::*;
use crate::ast::row::Row;

verus! {

/// A literal set of rows: `(1,2),(3,4)`.
#[derive(Debug)]
pub struct Values {
    pub rows: Vec<Row>,
}

impl Values {
    /// A set out of the given rows.
    pub fn new(rows: Vec<Row>) -> (r: Values)
        ensures
            r.rows == rows,
    {
        Values { rows }
    }

    /// Add a row at the end of the set.
    pub fn push(&mut self, row: Row)
        ensures
            final(self).rows@ == old(self).rows@.push(row),
    {
        self.rows.push(row);
    }

    /// How many rows the set holds.
    pub fn len(&self) -> (r: usize)
        ensures
            r == self.rows@.len(),
    {
        self.rows.len()
    }

    /// Whether the set holds no rows.
    pub fn is_empty(&self) -> (r: bool)
        ensures
            r == (self.rows@.len() == 0),
    {
        self.rows.len() == 0
    }

    /// How many values the first row holds; zero for an empty set.
    pub fn row_len(&self) -> (r: usize)
        ensures
            self.rows@.len() == 0 ==> r == 0,
            self.rows@.len() > 0 ==> r == self.rows@[0].values@.len(),
    {
        if self.rows.len() == 0 {
            0
        } else {
            self.rows[0].values.len()
        }
    }
}

} // verus!

use vstd::prelude::*;
use crate::ast::column::Column;
use crate::ast::ordering::Ordering;

verus! {

/// A window definition: what to partition by and how to order inside a
/// partition.
#[derive(Debug)]
pub struct Over {
    pub partitioning: Vec<Column>,
    pub ordering: Ordering,
}

impl Over {
    /// Whether the window defines neither partitioning nor ordering.
    pub fn is_empty(&self) -> (r: bool)
        ensures
            r == (self.partitioning@.len() == 0 && self.ordering.0@.len() == 0),
    {
        self.partitioning.len() == 0 && self.ordering.0.len() == 0
    }
}

impl Default for Over {
    /// An empty window definition.
    fn default() -> (r: Over)
        ensures
            r.partitioning@ == Seq::<Column>::empty(),
            r.ordering.0@ == Seq::<crate::ast::ordering::OrderDefinition>::empty(),
    {
        Over { partitioning: Vec::new(), ordering: Ordering(Vec::new()) }
    }
}

} // verus!

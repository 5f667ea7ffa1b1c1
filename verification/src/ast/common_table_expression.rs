use vstd::prelude::*;
use crate::ast::query::Query;

verus! {

/// A common table expression: a named subquery attached to a `SELECT` by a
/// `WITH` prefix, in declaration order.
#[derive(Debug)]
pub struct CommonTableExpression {
    pub name: String,
    pub query: Query,
}

impl CommonTableExpression {
    /// A named subquery.
    pub fn new(name: &str, query: Query) -> (r: CommonTableExpression)
        ensures
            r.name@ == name@,
            r.query == query,
    {
        CommonTableExpression { name: String::from_str(name), query }
    }
}

} // verus!

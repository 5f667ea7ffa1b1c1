use vstd::prelude::*;
use crate::ast::expression::Expression;

verus! {

/// An arithmetic or string operation between two expressions.
#[derive(Debug)]
pub enum SqlOp {
    /// `left + right`
    Add(Expression, Expression),
    /// `left - right`
    Sub(Expression, Expression),
    /// `left * right`
    Mul(Expression, Expression),
    /// `left / right`
    Div(Expression, Expression),
    /// `left % right`
    Rem(Expression, Expression),
    /// `left || right`
    Append(Expression, Expression),
    /// `left #- right`, deleting at a JSON path
    JsonDeleteAtPath(Expression, Expression),
}

} // verus!

use vstd::prelude::*;
use crate::ast::expression::{Expression, ExpressionKind};
use crate::ast::table::Table;

verus! {

/// A boolean combinator tree over expressions.
#[derive(Debug)]
pub enum ConditionTree {
    /// All the listed expressions hold.
    And(Vec<Expression>),
    /// At least one of the listed expressions holds.
    Or(Vec<Expression>),
    /// The expression does not hold.
    Not(Box<Expression>),
    /// A single expression leaf.
    Single(Box<Expression>),
    /// A leaf that does nothing to the condition: always true.
    NoCondition,
    /// A leaf that cancels the condition: always false.
    NegativeCondition,
    /// A nested table has rows.
    Exists(Box<Table>),
}

/// The tree lifted into expression position.
pub open spec fn tree_expr(t: ConditionTree) -> Expression {
    Expression { kind: ExpressionKind::ConditionTree(t), alias: None }
}

/// What combining a tree with one more operand under `AND` yields: an `AND`
/// list takes the operand at its end (the combinator flattens), a single leaf
/// opens a two-element list, and any other shape is wrapped whole beside the
/// operand.
pub open spec fn anded(before: ConditionTree, other: Expression, after: ConditionTree) -> bool {
    match before {
        ConditionTree::And(es) => after matches ConditionTree::And(es2) && es2@ == es@.push(other),
        ConditionTree::Single(e) => after matches ConditionTree::And(es2) && es2@ == seq![*e, other],
        _ => after matches ConditionTree::And(es2) && es2@ == seq![tree_expr(before), other],
    }
}

/// What combining a tree with one more operand under `OR` yields, mirroring
/// [`anded`].
pub open spec fn ored(before: ConditionTree, other: Expression, after: ConditionTree) -> bool {
    match before {
        ConditionTree::Or(es) => after matches ConditionTree::Or(es2) && es2@ == es@.push(other),
        ConditionTree::Single(e) => after matches ConditionTree::Or(es2) && es2@ == seq![*e, other],
        _ => after matches ConditionTree::Or(es2) && es2@ == seq![tree_expr(before), other],
    }
}

impl ConditionTree {
    /// An `AND` of this tree and one more operand; `AND` lists flatten.
    pub fn and(self, other: Expression) -> (r: ConditionTree)
        ensures
            anded(self, other, r),
    {
        let ghost o = other;
        match self {
            ConditionTree::And(mut conditions) => {
                conditions.push(other);
                ConditionTree::And(conditions)
            },
            ConditionTree::Single(expr) => {
                let ghost e0 = *expr;
                let mut conditions: Vec<Expression> = Vec::new();
                conditions.push(*expr);
                conditions.push(other);
                proof {
                    assert(conditions@ =~= seq![e0, o]);
                }
                ConditionTree::And(conditions)
            },
            tree => {
                let ghost t0 = tree;
                let mut conditions: Vec<Expression> = Vec::new();
                conditions.push(Expression { kind: ExpressionKind::ConditionTree(tree), alias: None });
                conditions.push(other);
                proof {
                    assert(conditions@ =~= seq![tree_expr(t0), o]);
                }
                ConditionTree::And(conditions)
            },
        }
    }

    /// An `OR` of this tree and one more operand; `OR` lists flatten.
    pub fn or(self, other: Expression) -> (r: ConditionTree)
        ensures
            ored(self, other, r),
    {
        let ghost o = other;
        match self {
            ConditionTree::Or(mut conditions) => {
                conditions.push(other);
                ConditionTree::Or(conditions)
            },
            ConditionTree::Single(expr) => {
                let ghost e0 = *expr;
                let mut conditions: Vec<Expression> = Vec::new();
                conditions.push(*expr);
                conditions.push(other);
                proof {
                    assert(conditions@ =~= seq![e0, o]);
                }
                ConditionTree::Or(conditions)
            },
            tree => {
                let ghost t0 = tree;
                let mut conditions: Vec<Expression> = Vec::new();
                conditions.push(Expression { kind: ExpressionKind::ConditionTree(tree), alias: None });
                conditions.push(other);
                proof {
                    assert(conditions@ =~= seq![tree_expr(t0), o]);
                }
                ConditionTree::Or(conditions)
            },
        }
    }

    /// A `NOT` over the given expression.
    pub fn not(left: Expression) -> (r: ConditionTree)
        ensures
            r matches ConditionTree::Not(e) && e == left,
    {
        ConditionTree::Not(Box::new(left))
    }

    /// A single expression leaf.
    pub fn single(left: Expression) -> (r: ConditionTree)
        ensures
            r matches ConditionTree::Single(e) && e == left,
    {
        ConditionTree::Single(Box::new(left))
    }

    /// True when the nested table has any rows.
    pub fn exists_in(table: Table) -> (r: ConditionTree)
        ensures
            r matches ConditionTree::Exists(t) && t == table,
    {
        ConditionTree::Exists(Box::new(table))
    }

    /// The whole tree negated, when asked to.
    pub fn invert_if(self, invert: bool) -> (r: ConditionTree)
        ensures
            invert ==> (r matches ConditionTree::Not(e) && *e == tree_expr(self)),
            !invert ==> r == self,
    {
        if invert {
            ConditionTree::Not(Box::new(Expression { kind: ExpressionKind::ConditionTree(self), alias: None }))
        } else {
            self
        }
    }

    /// The tree lifted into expression position.
    pub fn into_expression(self) -> (r: Expression)
        ensures
            r == tree_expr(self),
    {
        Expression { kind: ExpressionKind::ConditionTree(self), alias: None }
    }
}

impl Default for ConditionTree {
    /// The tree that does nothing to a condition.
    fn default() -> (r: ConditionTree)
        ensures
            r is NoCondition,
    {
        ConditionTree::NoCondition
    }
}

} // verus!

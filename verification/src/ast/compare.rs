use vstd::prelude::*;
use crate::ast::column::Column;
use crate::ast::conditions::ConditionTree;
use crate::ast::expression::{Expression, ExpressionKind};

verus! {

/// A comparison between expressions.
#[derive(Debug)]
pub enum Compare {
    /// `left = right`
    Equals(Box<Expression>, Box<Expression>),
    /// `left <> right`
    NotEquals(Box<Expression>, Box<Expression>),
    /// `left < right`
    LessThan(Box<Expression>, Box<Expression>),
    /// `left <= right`
    LessThanOrEquals(Box<Expression>, Box<Expression>),
    /// `left > right`
    GreaterThan(Box<Expression>, Box<Expression>),
    /// `left >= right`
    GreaterThanOrEquals(Box<Expression>, Box<Expression>),
    /// `left IN (..)`
    In(Box<Expression>, Box<Expression>),
    /// `left NOT IN (..)`
    NotIn(Box<Expression>, Box<Expression>),
    /// `left LIKE pattern`
    Like(Box<Expression>, Box<Expression>),
    /// `left NOT LIKE pattern`
    NotLike(Box<Expression>, Box<Expression>),
    /// `value IS NULL`
    Null(Box<Expression>),
    /// `value IS NOT NULL`
    NotNull(Box<Expression>),
    /// `value BETWEEN left AND right`
    Between(Box<Expression>, Box<Expression>, Box<Expression>),
    /// `value NOT BETWEEN left AND right`
    NotBetween(Box<Expression>, Box<Expression>, Box<Expression>),
    /// `left <operator> right` with the operator text taken as it stands.
    Raw(Box<Expression>, String, Box<Expression>),
    /// The JSON and array comparisons.
    JsonCompare(JsonCompare),
    /// `ANY (left)`
    Any(Box<Expression>),
    /// `ALL (left)`
    All(Box<Expression>),
}

/// The JSON and array comparisons.
#[derive(Debug)]
pub enum JsonCompare {
    /// `left && right`
    ArrayOverlaps(Box<Expression>, Box<Expression>),
    /// `left @> right`
    ArrayContains(Box<Expression>, Box<Expression>),
    /// `left <@ right`
    ArrayContained(Box<Expression>, Box<Expression>),
    /// `NOT (left @> right)`
    ArrayNotContains(Box<Expression>, Box<Expression>),
    /// The JSON type of the left side equals the given type.
    TypeEquals(Box<Expression>, JsonType),
    /// The JSON type of the left side differs from the given type.
    TypeNotEquals(Box<Expression>, JsonType),
}

/// A JSON type to compare against: one of the literal type names, or the type
/// of another column.
#[derive(Debug)]
pub enum JsonType {
    Array,
    Object,
    String,
    Number,
    Boolean,
    Null,
    ColumnRef(Box<Column>),
}

impl From<Column> for JsonType {
    fn from(col: Column) -> (r: JsonType)
        ensures
            r matches JsonType::ColumnRef(c) && c == col,
    {
        JsonType::ColumnRef(Box::new(col))
    }
}

impl vstd::std_specs::convert::FromSpecImpl<Column> for JsonType {
    open spec fn obeys_from_spec() -> bool {
        false
    }

    open spec fn from_spec(col: Column) -> JsonType {
        arbitrary()
    }
}

impl From<Compare> for Expression {
    fn from(cmp: Compare) -> (r: Expression)
        ensures
            r.kind matches ExpressionKind::Compare(c) && c == cmp,
            r.alias is None,
    {
        Expression { kind: ExpressionKind::Compare(cmp), alias: None }
    }
}

impl vstd::std_specs::convert::FromSpecImpl<Compare> for Expression {
    open spec fn obeys_from_spec() -> bool {
        true
    }

    open spec fn from_spec(cmp: Compare) -> Expression {
        Expression { kind: ExpressionKind::Compare(cmp), alias: None }
    }
}

impl From<Compare> for ConditionTree {
    fn from(cmp: Compare) -> (r: ConditionTree)
        ensures
            r matches ConditionTree::Single(e)
                && e.kind matches ExpressionKind::Compare(c) && c == cmp
                && e.alias is None,
    {
        ConditionTree::Single(Box::new(Expression { kind: ExpressionKind::Compare(cmp), alias: None }))
    }
}

impl vstd::std_specs::convert::FromSpecImpl<Compare> for ConditionTree {
    open spec fn obeys_from_spec() -> bool {
        false
    }

    open spec fn from_spec(cmp: Compare) -> ConditionTree {
        arbitrary()
    }
}

} // verus!

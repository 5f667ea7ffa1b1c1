use vstd::prelude::*;
use crate::ast::column::Column;
use crate::ast::compare::{Compare, JsonCompare, JsonType};
use crate::ast::conditions::ConditionTree;
use crate::ast::function::Function;
use crate::ast::ops::SqlOp;
use crate::ast::row::Row;
use crate::ast::select::Select;
use crate::ast::table::Table;
use crate::ast::value::Value;
use crate::ast::values::Values;

verus! {

/// Anything usable as a value in a query: a concrete shape with an optional
/// alias, rendered as `AS <alias>` after the value.
#[derive(Debug)]
pub struct Expression {
    pub kind: ExpressionKind,
    pub alias: Option<String>,
}

/// The concrete shape of an expression.
#[derive(Debug)]
pub enum ExpressionKind {
    /// A literal handed over as a parameter, never printed into the text.
    Parameterized(Value),
    /// Text rendered as it stands; the caller escapes it.
    Raw(String),
    /// A column reference.
    Column(Box<Column>),
    /// A table reference, for `table.*` positions.
    Table(Box<Table>),
    /// A row of values: `(1, 2, 3)`.
    Row(Row),
    /// A nested `SELECT`.
    Selection(Box<Select>),
    /// A database function call.
    Function(Box<Function>),
    /// An asterisk, qualified by a table when one is given.
    Asterisk(Option<Box<Table>>),
    /// An arithmetic or string operation.
    Op(Box<SqlOp>),
    /// A boolean combinator tree.
    ConditionTree(ConditionTree),
    /// A comparison.
    Compare(Compare),
    /// A single wrapped expression.
    Value(Box<Expression>),
    /// A literal set of rows.
    Values(Values),
    /// The `DEFAULT` keyword.
    Default,
}

/// Text rendered into the query as it stands. Carefully escape, if needed.
pub fn raw(value: &str) -> (r: Expression)
    ensures
        r.kind matches ExpressionKind::Raw(s) && s@ == value@,
        r.alias is None,
{
    Expression { kind: ExpressionKind::Raw(String::from_str(value)), alias: None }
}

/// An unqualified asterisk.
pub fn asterisk() -> (r: Expression)
    ensures
        r.kind matches ExpressionKind::Asterisk(t) && t is None,
        r.alias is None,
{
    Expression { kind: ExpressionKind::Asterisk(None), alias: None }
}

/// The `DEFAULT` keyword, e.g. for `INSERT INTO ... VALUES (DEFAULT)`.
pub fn default_value() -> (r: Expression)
    ensures
        r.kind is Default,
        r.alias is None,
{
    Expression { kind: ExpressionKind::Default, alias: None }
}

impl Expression {
    /// Publish the expression under an alias.
    pub fn alias(self, alias: &str) -> (r: Expression)
        ensures
            r.kind == self.kind,
            r.alias matches Some(a) && a@ == alias@,
    {
        Expression { kind: self.kind, alias: Some(String::from_str(alias)) }
    }

    /// `self = comparison`
    pub fn equals(self, comparison: Expression) -> (r: Compare)
        ensures
            r matches Compare::Equals(l, rr) && l == self && rr == comparison,
    {
        Compare::Equals(Box::new(self), Box::new(comparison))
    }

    /// `self <> comparison`
    pub fn not_equals(self, comparison: Expression) -> (r: Compare)
        ensures
            r matches Compare::NotEquals(l, rr) && l == self && rr == comparison,
    {
        Compare::NotEquals(Box::new(self), Box::new(comparison))
    }

    /// `self < comparison`
    pub fn less_than(self, comparison: Expression) -> (r: Compare)
        ensures
            r matches Compare::LessThan(l, rr) && l == self && rr == comparison,
    {
        Compare::LessThan(Box::new(self), Box::new(comparison))
    }

    /// `self <= comparison`
    pub fn less_than_or_equals(self, comparison: Expression) -> (r: Compare)
        ensures
            r matches Compare::LessThanOrEquals(l, rr) && l == self && rr == comparison,
    {
        Compare::LessThanOrEquals(Box::new(self), Box::new(comparison))
    }

    /// `self > comparison`
    pub fn greater_than(self, comparison: Expression) -> (r: Compare)
        ensures
            r matches Compare::GreaterThan(l, rr) && l == self && rr == comparison,
    {
        Compare::GreaterThan(Box::new(self), Box::new(comparison))
    }

    /// `self >= comparison`
    pub fn greater_than_or_equals(self, comparison: Expression) -> (r: Compare)
        ensures
            r matches Compare::GreaterThanOrEquals(l, rr) && l == self && rr == comparison,
    {
        Compare::GreaterThanOrEquals(Box::new(self), Box::new(comparison))
    }

    /// `self IN (selection)`
    pub fn in_selection(self, selection: Expression) -> (r: Compare)
        ensures
            r matches Compare::In(l, rr) && l == self && rr == selection,
    {
        Compare::In(Box::new(self), Box::new(selection))
    }

    /// `self NOT IN (selection)`
    pub fn not_in_selection(self, selection: Expression) -> (r: Compare)
        ensures
            r matches Compare::NotIn(l, rr) && l == self && rr == selection,
    {
        Compare::NotIn(Box::new(self), Box::new(selection))
    }

    /// `self LIKE pattern`
    pub fn like(self, pattern: Expression) -> (r: Compare)
        ensures
            r matches Compare::Like(l, rr) && l == self && rr == pattern,
    {
        Compare::Like(Box::new(self), Box::new(pattern))
    }

    /// `self NOT LIKE pattern`
    pub fn not_like(self, pattern: Expression) -> (r: Compare)
        ensures
            r matches Compare::NotLike(l, rr) && l == self && rr == pattern,
    {
        Compare::NotLike(Box::new(self), Box::new(pattern))
    }

    /// `self IS NULL`
    pub fn is_null(self) -> (r: Compare)
        ensures
            r matches Compare::Null(e) && e == self,
    {
        Compare::Null(Box::new(self))
    }

    /// `self IS NOT NULL`
    pub fn is_not_null(self) -> (r: Compare)
        ensures
            r matches Compare::NotNull(e) && e == self,
    {
        Compare::NotNull(Box::new(self))
    }

    /// `self BETWEEN left AND right`
    pub fn between(self, left: Expression, right: Expression) -> (r: Compare)
        ensures
            r matches Compare::Between(v, l, rr) && v == self && l == left && rr == right,
    {
        Compare::Between(Box::new(self), Box::new(left), Box::new(right))
    }

    /// `self NOT BETWEEN left AND right`
    pub fn not_between(self, left: Expression, right: Expression) -> (r: Compare)
        ensures
            r matches Compare::NotBetween(v, l, rr) && v == self && l == left && rr == right,
    {
        Compare::NotBetween(Box::new(self), Box::new(left), Box::new(right))
    }

    /// `self <operator> right`, with the operator text taken as it stands.
    pub fn compare_raw(self, raw_comparator: &str, right: Expression) -> (r: Compare)
        ensures
            r matches Compare::Raw(l, op, rr) && l == self && op@ == raw_comparator@ && rr == right,
    {
        Compare::Raw(Box::new(self), String::from_str(raw_comparator), Box::new(right))
    }

    /// `self @> item`: the array on the left contains the right side.
    pub fn array_contains(self, item: Expression) -> (r: Compare)
        ensures
            r matches Compare::JsonCompare(j) && j matches JsonCompare::ArrayContains(l, rr)
                && l == self && rr == item,
    {
        Compare::JsonCompare(JsonCompare::ArrayContains(Box::new(self), Box::new(item)))
    }

    /// `self <@ item`: the array on the left is contained in the right side.
    pub fn array_contained(self, item: Expression) -> (r: Compare)
        ensures
            r matches Compare::JsonCompare(j) && j matches JsonCompare::ArrayContained(l, rr)
                && l == self && rr == item,
    {
        Compare::JsonCompare(JsonCompare::ArrayContained(Box::new(self), Box::new(item)))
    }

    /// `self && item`: the two arrays overlap.
    pub fn array_overlaps(self, item: Expression) -> (r: Compare)
        ensures
            r matches Compare::JsonCompare(j) && j matches JsonCompare::ArrayOverlaps(l, rr)
                && l == self && rr == item,
    {
        Compare::JsonCompare(JsonCompare::ArrayOverlaps(Box::new(self), Box::new(item)))
    }

    /// `NOT (self @> item)`: the array on the left does not contain the right
    /// side.
    pub fn json_array_not_contains(self, item: Expression) -> (r: Compare)
        ensures
            r matches Compare::JsonCompare(j) && j matches JsonCompare::ArrayNotContains(l, rr)
                && l == self && rr == item,
    {
        Compare::JsonCompare(JsonCompare::ArrayNotContains(Box::new(self), Box::new(item)))
    }

    /// The JSON value on the left is of the given type.
    pub fn json_type_equals(self, json_type: JsonType) -> (r: Compare)
        ensures
            r matches Compare::JsonCompare(j) && j matches JsonCompare::TypeEquals(l, t)
                && l == self && t == json_type,
    {
        Compare::JsonCompare(JsonCompare::TypeEquals(Box::new(self), json_type))
    }

    /// The JSON value on the left is not of the given type.
    pub fn json_type_not_equals(self, json_type: JsonType) -> (r: Compare)
        ensures
            r matches Compare::JsonCompare(j) && j matches JsonCompare::TypeNotEquals(l, t)
                && l == self && t == json_type,
    {
        Compare::JsonCompare(JsonCompare::TypeNotEquals(Box::new(self), json_type))
    }

    /// `ANY(self)`: matches at least one element of the list on the left.
    pub fn any(self) -> (r: Compare)
        ensures
            r matches Compare::Any(l) && l == self,
    {
        Compare::Any(Box::new(self))
    }

    /// `ALL(self)`: matches all elements of the list on the left.
    pub fn all(self) -> (r: Compare)
        ensures
            r matches Compare::All(l) && l == self,
    {
        Compare::All(Box::new(self))
    }

    /// An `AND` with this expression as the left leaf.
    pub fn and(self, other: Expression) -> (r: ConditionTree)
        ensures
            r matches ConditionTree::And(es) && es@ == seq![self, other],
    {
        let mut conditions: Vec<Expression> = Vec::new();
        conditions.push(self);
        conditions.push(other);
        ConditionTree::And(conditions)
    }

    /// An `OR` with this expression as the left leaf.
    pub fn or(self, other: Expression) -> (r: ConditionTree)
        ensures
            r matches ConditionTree::Or(es) && es@ == seq![self, other],
    {
        let mut conditions: Vec<Expression> = Vec::new();
        conditions.push(self);
        conditions.push(other);
        ConditionTree::Or(conditions)
    }

    /// A `NOT` over this expression.
    pub fn not(self) -> (r: ConditionTree)
        ensures
            r matches ConditionTree::Not(e) && e == self,
    {
        ConditionTree::Not(Box::new(self))
    }
}

impl From<Column> for Expression {
    fn from(col: Column) -> (r: Expression)
        ensures
            r.kind matches ExpressionKind::Column(c) && c == col,
            r.alias is None,
    {
        Expression { kind: ExpressionKind::Column(Box::new(col)), alias: None }
    }
}

impl vstd::std_specs::convert::FromSpecImpl<Column> for Expression {
    open spec fn obeys_from_spec() -> bool {
        false
    }

    open spec fn from_spec(col: Column) -> Expression {
        arbitrary()
    }
}

impl From<Table> for Expression {
    fn from(table: Table) -> (r: Expression)
        ensures
            r.kind matches ExpressionKind::Table(t) && t == table,
            r.alias is None,
    {
        Expression { kind: ExpressionKind::Table(Box::new(table)), alias: None }
    }
}

impl vstd::std_specs::convert::FromSpecImpl<Table> for Expression {
    open spec fn obeys_from_spec() -> bool {
        false
    }

    open spec fn from_spec(table: Table) -> Expression {
        arbitrary()
    }
}

impl From<Select> for Expression {
    fn from(sel: Select) -> (r: Expression)
        ensures
            r.kind matches ExpressionKind::Selection(s) && s == sel,
            r.alias is None,
    {
        Expression { kind: ExpressionKind::Selection(Box::new(sel)), alias: None }
    }
}

impl vstd::std_specs::convert::FromSpecImpl<Select> for Expression {
    open spec fn obeys_from_spec() -> bool {
        false
    }

    open spec fn from_spec(sel: Select) -> Expression {
        arbitrary()
    }
}

impl From<Function> for Expression {
    fn from(f: Function) -> (r: Expression)
        ensures
            r.kind matches ExpressionKind::Function(g) && g == f,
            r.alias is None,
    {
        Expression { kind: ExpressionKind::Function(Box::new(f)), alias: None }
    }
}

impl vstd::std_specs::convert::FromSpecImpl<Function> for Expression {
    open spec fn obeys_from_spec() -> bool {
        false
    }

    open spec fn from_spec(f: Function) -> Expression {
        arbitrary()
    }
}

impl From<SqlOp> for Expression {
    fn from(op: SqlOp) -> (r: Expression)
        ensures
            r.kind matches ExpressionKind::Op(o) && o == op,
            r.alias is None,
    {
        Expression { kind: ExpressionKind::Op(Box::new(op)), alias: None }
    }
}

impl vstd::std_specs::convert::FromSpecImpl<SqlOp> for Expression {
    open spec fn obeys_from_spec() -> bool {
        false
    }

    open spec fn from_spec(op: SqlOp) -> Expression {
        arbitrary()
    }
}

impl From<Row> for Expression {
    fn from(row: Row) -> (r: Expression)
        ensures
            r.kind matches ExpressionKind::Row(w) && w == row,
            r.alias is None,
    {
        Expression { kind: ExpressionKind::Row(row), alias: None }
    }
}

impl vstd::std_specs::convert::FromSpecImpl<Row> for Expression {
    open spec fn obeys_from_spec() -> bool {
        true
    }

    open spec fn from_spec(row: Row) -> Expression {
        Expression { kind: ExpressionKind::Row(row), alias: None }
    }
}

impl From<Values> for Expression {
    fn from(values: Values) -> (r: Expression)
        ensures
            r.kind matches ExpressionKind::Values(v) && v == values,
            r.alias is None,
    {
        Expression { kind: ExpressionKind::Values(values), alias: None }
    }
}

impl vstd::std_specs::convert::FromSpecImpl<Values> for Expression {
    open spec fn obeys_from_spec() -> bool {
        true
    }

    open spec fn from_spec(values: Values) -> Expression {
        Expression { kind: ExpressionKind::Values(values), alias: None }
    }
}

impl From<Value> for Expression {
    fn from(value: Value) -> (r: Expression)
        ensures
            r.kind matches ExpressionKind::Parameterized(v) && v == value,
            r.alias is None,
    {
        Expression { kind: ExpressionKind::Parameterized(value), alias: None }
    }
}

impl vstd::std_specs::convert::FromSpecImpl<Value> for Expression {
    open spec fn obeys_from_spec() -> bool {
        true
    }

    open spec fn from_spec(value: Value) -> Expression {
        Expression { kind: ExpressionKind::Parameterized(value), alias: None }
    }
}

impl From<ExpressionKind> for Expression {
    fn from(kind: ExpressionKind) -> (r: Expression)
        ensures
            r.kind == kind,
            r.alias is None,
    {
        Expression { kind, alias: None }
    }
}

impl vstd::std_specs::convert::FromSpecImpl<ExpressionKind> for Expression {
    open spec fn obeys_from_spec() -> bool {
        true
    }

    open spec fn from_spec(kind: ExpressionKind) -> Expression {
        Expression { kind, alias: None }
    }
}

} // verus!

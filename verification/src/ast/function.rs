use vstd::prelude::*;
use crate::ast::column::Column;
use crate::ast::expression::Expression;
use crate::ast::ordering::{OrderDefinition, Ordering};
use crate::ast::over::Over;
use crate::ast::table::Table;

verus! {

/// A database function call, optionally published under an alias.
#[derive(Debug)]
pub struct Function {
    pub typ_: FunctionType,
    pub alias: Option<String>,
}

/// Which function is called, with its arguments.
#[derive(Debug)]
pub enum FunctionType {
    Count(Count),
    AggregateToString(AggregateToString),
    Average(Average),
    Sum(Sum),
    Lower(Lower),
    Upper(Upper),
    Minimum(Minimum),
    Maximum(Maximum),
    Coalesce(Coalesce),
    Concat(Concat),
    JsonExtract(JsonExtract),
    JsonExtractLastArrayElem(JsonExtractLastArrayElem),
    JsonExtractFirstArrayElem(JsonExtractFirstArrayElem),
    JsonUnquote(JsonUnquote),
    RowToJson(RowToJson),
    ToJsonb(ToJsonb),
    JsonAgg(JsonAgg),
    Encode(Encode),
    JsonBuildObject(JsonBuildObject),
}

/// Whether the function produces a JSON-typed result.
pub open spec fn spec_returns_json(t: FunctionType) -> bool {
    ||| t is RowToJson
    ||| t is JsonExtract
    ||| t is JsonExtractLastArrayElem
    ||| t is JsonExtractFirstArrayElem
    ||| t is ToJsonb
}

impl Function {
    /// Whether the function produces a JSON-typed result.
    pub fn returns_json(&self) -> (r: bool)
        ensures
            r == spec_returns_json(self.typ_),
    {
        match self.typ_ {
            FunctionType::RowToJson(_) => true,
            FunctionType::JsonExtract(_) => true,
            FunctionType::JsonExtractLastArrayElem(_) => true,
            FunctionType::JsonExtractFirstArrayElem(_) => true,
            FunctionType::ToJsonb(_) => true,
            _ => false,
        }
    }

    /// Publish the function under an alias.
    pub fn alias(self, alias: &str) -> (r: Function)
        ensures
            r.typ_ == self.typ_,
            r.alias matches Some(a) && a@ == alias@,
    {
        Function { typ_: self.typ_, alias: Some(String::from_str(alias)) }
    }
}

/// `COUNT(..)`; with no expressions it renders `COUNT(*)`.
#[derive(Debug)]
pub struct Count {
    pub exprs: Vec<Expression>,
}

/// Count the rows where the given expression is not null.
pub fn count(expr: Expression) -> (r: Function)
    ensures
        r.typ_ matches FunctionType::Count(c) && c.exprs@ == seq![expr],
        r.alias is None,
{
    let mut exprs: Vec<Expression> = Vec::new();
    exprs.push(expr);
    Function { typ_: FunctionType::Count(Count { exprs }), alias: None }
}

/// `ARRAY_TO_STRING(ARRAY_AGG(..))`: aggregate a group into one string.
#[derive(Debug)]
pub struct AggregateToString {
    pub value: Box<Expression>,
}

/// Aggregate the given expression into a string.
pub fn aggregate_to_string(expr: Expression) -> (r: Function)
    ensures
        r.typ_ matches FunctionType::AggregateToString(a) && a.value == expr,
        r.alias is None,
{
    Function {
        typ_: FunctionType::AggregateToString(AggregateToString { value: Box::new(expr) }),
        alias: None,
    }
}

/// `AVG(column)`.
#[derive(Debug)]
pub struct Average {
    pub column: Column,
}

/// The average value of a numeric column.
pub fn avg(col: Column) -> (r: Function)
    ensures
        r.typ_ matches FunctionType::Average(a) && a.column == col,
        r.alias is None,
{
    Function { typ_: FunctionType::Average(Average { column: col }), alias: None }
}

/// `SUM(expr)`.
#[derive(Debug)]
pub struct Sum {
    pub expr: Box<Expression>,
}

/// The sum of a numeric expression.
pub fn sum(expr: Expression) -> (r: Function)
    ensures
        r.typ_ matches FunctionType::Sum(s) && s.expr == expr,
        r.alias is None,
{
    Function { typ_: FunctionType::Sum(Sum { expr: Box::new(expr) }), alias: None }
}

/// `LOWER(expr)`.
#[derive(Debug)]
pub struct Lower {
    pub expression: Box<Expression>,
}

/// The result of the expression in lowercase.
pub fn lower(expression: Expression) -> (r: Function)
    ensures
        r.typ_ matches FunctionType::Lower(l) && l.expression == expression,
        r.alias is None,
{
    Function {
        typ_: FunctionType::Lower(Lower { expression: Box::new(expression) }),
        alias: None,
    }
}

/// `UPPER(expr)`.
#[derive(Debug)]
pub struct Upper {
    pub expression: Box<Expression>,
}

/// The result of the expression in uppercase.
pub fn upper(expression: Expression) -> (r: Function)
    ensures
        r.typ_ matches FunctionType::Upper(u) && u.expression == expression,
        r.alias is None,
{
    Function {
        typ_: FunctionType::Upper(Upper { expression: Box::new(expression) }),
        alias: None,
    }
}

/// `MIN(column)`.
#[derive(Debug)]
pub struct Minimum {
    pub column: Column,
}

/// The minimum value of a numeric column.
pub fn min(col: Column) -> (r: Function)
    ensures
        r.typ_ matches FunctionType::Minimum(m) && m.column == col,
        r.alias is None,
{
    Function { typ_: FunctionType::Minimum(Minimum { column: col }), alias: None }
}

/// `MAX(column)`.
#[derive(Debug)]
pub struct Maximum {
    pub column: Column,
}

/// The maximum value of a numeric column.
pub fn max(col: Column) -> (r: Function)
    ensures
        r.typ_ matches FunctionType::Maximum(m) && m.column == col,
        r.alias is None,
{
    Function { typ_: FunctionType::Maximum(Maximum { column: col }), alias: None }
}

/// `COALESCE(..)`: the first non-null expression.
#[derive(Debug)]
pub struct Coalesce {
    pub exprs: Vec<Expression>,
}

/// The first non-null of the given expressions.
pub fn coalesce(exprs: Vec<Expression>) -> (r: Function)
    ensures
        r.typ_ matches FunctionType::Coalesce(c) && c.exprs == exprs,
        r.alias is None,
{
    Function { typ_: FunctionType::Coalesce(Coalesce { exprs }), alias: None }
}

/// `CONCAT(..)` — on PostgreSQL rendered with the `||` operator.
#[derive(Debug)]
pub struct Concat {
    pub exprs: Vec<Expression>,
}

/// The given expressions concatenated into one string.
pub fn concatenate(exprs: Vec<Expression>) -> (r: Function)
    ensures
        r.typ_ matches FunctionType::Concat(c) && c.exprs == exprs,
        r.alias is None,
{
    Function { typ_: FunctionType::Concat(Concat { exprs }), alias: None }
}

/// A path into a JSON value: a dotted path string (the MySQL notation) or an
/// array of keys (the PostgreSQL notation).
#[derive(Debug)]
pub enum JsonPath {
    /// The dotted path string notation.
    String(String),
    /// The array-of-keys notation.
    Array(Vec<String>),
}

impl JsonPath {
    /// A path in the dotted string notation.
    pub fn string(string: &str) -> (r: JsonPath)
        ensures
            r matches JsonPath::String(s) && s@ == string@,
    {
        JsonPath::String(String::from_str(string))
    }

    /// A path in the array-of-keys notation.
    pub fn array(array: Vec<String>) -> (r: JsonPath)
        ensures
            r matches JsonPath::Array(a) && a == array,
    {
        JsonPath::Array(array)
    }
}

/// Extraction of the JSON subtree at a path: `(column #> path)`, or with
/// `#>>` when the result is taken as text.
#[derive(Debug)]
pub struct JsonExtract {
    pub column: Box<Expression>,
    pub path: JsonPath,
    pub extract_as_string: bool,
}

/// The JSON subtree of `column` under `path`; as text when asked to.
pub fn json_extract(column: Expression, path: JsonPath, extract_as_string: bool) -> (r: Function)
    ensures
        r.typ_ matches FunctionType::JsonExtract(j)
            && j.column == column && j.path == path && j.extract_as_string == extract_as_string,
        r.alias is None,
{
    Function {
        typ_: FunctionType::JsonExtract(JsonExtract { column: Box::new(column), path, extract_as_string }),
        alias: None,
    }
}

/// The last element of a JSON array: `(expr->-1)`.
#[derive(Debug)]
pub struct JsonExtractLastArrayElem {
    pub expr: Box<Expression>,
}

/// The last element of the JSON array.
pub fn json_extract_last_array_elem(expr: Expression) -> (r: Function)
    ensures
        r.typ_ matches FunctionType::JsonExtractLastArrayElem(j) && j.expr == expr,
        r.alias is None,
{
    Function {
        typ_: FunctionType::JsonExtractLastArrayElem(JsonExtractLastArrayElem { expr: Box::new(expr) }),
        alias: None,
    }
}

/// The first element of a JSON array: `(expr->0)`.
#[derive(Debug)]
pub struct JsonExtractFirstArrayElem {
    pub expr: Box<Expression>,
}

/// The first element of the JSON array.
pub fn json_extract_first_array_elem(expr: Expression) -> (r: Function)
    ensures
        r.typ_ matches FunctionType::JsonExtractFirstArrayElem(j) && j.expr == expr,
        r.alias is None,
{
    Function {
        typ_: FunctionType::JsonExtractFirstArrayElem(JsonExtractFirstArrayElem { expr: Box::new(expr) }),
        alias: None,
    }
}

/// A JSON value unquoted into text: `(expr#>>ARRAY[]::text[])`.
#[derive(Debug)]
pub struct JsonUnquote {
    pub expr: Box<Expression>,
}

/// The JSON expression as unquoted text.
pub fn json_unquote(expr: Expression) -> (r: Function)
    ensures
        r.typ_ matches FunctionType::JsonUnquote(j) && j.expr == expr,
        r.alias is None,
{
    Function {
        typ_: FunctionType::JsonUnquote(JsonUnquote { expr: Box::new(expr) }),
        alias: None,
    }
}

/// `ROW_TO_JSON(table)`.
#[derive(Debug)]
pub struct RowToJson {
    pub expr: Table,
    pub pretty_print: bool,
}

/// The given table row as JSON.
pub fn row_to_json(expr: Table, pretty_print: bool) -> (r: Function)
    ensures
        r.typ_ matches FunctionType::RowToJson(j) && j.expr == expr && j.pretty_print == pretty_print,
        r.alias is None,
{
    Function {
        typ_: FunctionType::RowToJson(RowToJson { expr, pretty_print }),
        alias: None,
    }
}

/// `to_jsonb(table.*)`.
#[derive(Debug)]
pub struct ToJsonb {
    pub table: Table,
}

/// The given table row as JSONB.
pub fn to_jsonb(table: Table) -> (r: Function)
    ensures
        r.typ_ matches FunctionType::ToJsonb(j) && j.table == table,
        r.alias is None,
{
    Function { typ_: FunctionType::ToJsonb(ToJsonb { table }), alias: None }
}

/// `json_agg(..)`, optionally distinct, optionally ordered.
#[derive(Debug)]
pub struct JsonAgg {
    pub expression: Expression,
    pub distinct: bool,
    pub order_by: Option<Ordering>,
}

/// The given expression aggregated into a JSON collection.
pub fn json_agg(expression: Expression, order_by: Option<Ordering>, distinct: bool) -> (r: Function)
    ensures
        r.typ_ matches FunctionType::JsonAgg(j)
            && j.expression == expression && j.order_by == order_by && j.distinct == distinct,
        r.alias is None,
{
    Function {
        typ_: FunctionType::JsonAgg(JsonAgg { expression, distinct, order_by }),
        alias: None,
    }
}

/// The format `encode` writes bytes out in.
#[derive(Debug, Clone, Copy, PartialEq, Eq, Structural)]
pub enum EncodeFormat {
    Base64,
    Escape,
    Hex,
}

/// `encode(expr, format)`.
#[derive(Debug)]
pub struct Encode {
    pub expression: Expression,
    pub format: EncodeFormat,
}

/// The given bytes written out in the given format.
pub fn encode(expression: Expression, format: EncodeFormat) -> (r: Function)
    ensures
        r.typ_ matches FunctionType::Encode(e) && e.expression == expression && e.format == format,
        r.alias is None,
{
    Function { typ_: FunctionType::Encode(Encode { expression, format }), alias: None }
}

/// `json_build_object(..)` out of key and value pairs.
#[derive(Debug)]
pub struct JsonBuildObject {
    pub values: Vec<(String, Expression)>,
}

/// A JSON object out of the given key and value pairs.
pub fn json_build_object(values: Vec<(String, Expression)>) -> (r: Function)
    ensures
        r.typ_ matches FunctionType::JsonBuildObject(j) && j.values == values,
        r.alias is None,
{
    Function { typ_: FunctionType::JsonBuildObject(JsonBuildObject { values }), alias: None }
}

/// A window function numbering the rows of the result set.
#[derive(Debug)]
pub struct RowNumber {
    pub over: Over,
}

impl RowNumber {
    /// Say how the numbering is ordered; the row order when never called.
    pub fn order_by(self, value: OrderDefinition) -> (r: RowNumber)
        ensures
            r.over.ordering.0@ == self.over.ordering.0@.push(value),
            r.over.partitioning == self.over.partitioning,
    {
        let mut over = self.over;
        over.ordering.append(value);
        RowNumber { over }
    }

    /// Say what the numbering is partitioned by.
    pub fn partition_by(self, partition: Column) -> (r: RowNumber)
        ensures
            r.over.partitioning@ == self.over.partitioning@.push(partition),
            r.over.ordering == self.over.ordering,
    {
        let mut over = self.over;
        over.partitioning.push(partition);
        RowNumber { over }
    }
}

/// A number from 1 to n in the specified order.
pub fn row_number() -> (r: RowNumber)
    ensures
        r.over.partitioning@ == Seq::<Column>::empty(),
        r.over.ordering.0@ == Seq::<OrderDefinition>::empty(),
{
    RowNumber { over: Over::default() }
}

} // verus!

//! The abstract syntax tree: everything needed to build SQL queries without
//! going into database-level specifics.
mod column;
mod common_table_expression;
mod compare;
mod conditions;
mod delete;
mod expression;
mod function;
mod grouping;
mod insert;
mod join;
mod ops;
mod ordering;
mod over;
mod query;
mod row;
mod select;
mod table;
mod update;
mod value;
mod values;

pub use column::{Column, TypeDataLength};
pub use common_table_expression::CommonTableExpression;
pub use compare::{Compare, JsonCompare, JsonType};
pub use conditions::{anded, ored, tree_expr, ConditionTree};
pub use delete::Delete;
pub use expression::{asterisk, default_value, raw, Expression, ExpressionKind};
pub use function::{
    aggregate_to_string, avg, coalesce, concatenate, count, encode, json_agg, json_build_object,
    json_extract, json_extract_first_array_elem, json_extract_last_array_elem, json_unquote,
    lower, max, min, row_number, row_to_json, sum, to_jsonb, upper, AggregateToString, Average,
    Coalesce, Concat, Count, Encode, EncodeFormat, Function, FunctionType, JsonAgg,
    JsonBuildObject, JsonExtract, JsonExtractFirstArrayElem, JsonExtractLastArrayElem, JsonPath,
    JsonUnquote, Lower, Maximum, Minimum, RowNumber, RowToJson, Sum, ToJsonb, Upper,
};
pub use grouping::Grouping;
pub use insert::{multi_row_insert, single_row_insert, Insert, MultiRowInsert, OnConflict, SingleRowInsert};
pub use join::{Join, JoinData};
pub use ops::SqlOp;
pub use ordering::{Order, OrderDefinition, Ordering};
pub use over::Over;
pub use query::Query;
pub use row::Row;
pub use select::{
    same_select_but_columns, same_select_but_conditions, same_select_but_joins,
    same_select_but_tables, same_select_except, Select,
};
pub use table::{attached_join, joinable, JoinError, Table, TableType};
pub use update::Update;
pub use value::{group_values_view, lemma_values_view_index, lemma_values_view_len, lemma_values_view_push, values_view, Value, ValueV};
pub use values::Values;

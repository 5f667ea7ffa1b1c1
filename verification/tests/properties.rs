use sql_ast::ast::json_extract;
use sql_ast::ast::{
    Column, ConditionTree, Delete, Expression, Insert, JoinData, JoinError, JsonPath, Query, Row,
    Select, Table, Update, Value, Values,
};
use sql_ast::renderer::Postgres;

fn col(name: &str) -> Expression {
    Expression::from(Column::from(name))
}

fn val(v: Value) -> Expression {
    Expression::from(v)
}

fn sample_query() -> Query {
    let mut query = Select::from_table(Table::from("users"));
    query.column(Column::from("name"));
    query.so_that(ConditionTree::from(col("age").greater_than(val(Value::from(21)))));
    query.limit(10);
    query.offset(2);
    Query::from(query)
}

#[test]
fn rendering_twice_is_byte_identical() {
    let (sql1, params1) = Postgres::build(sample_query());
    let (sql2, params2) = Postgres::build(sample_query());

    assert_eq!(sql1, sql2);
    assert_eq!(params1, params2);
}

#[test]
fn placeholder_count_matches_parameter_count() {
    let (sql, params) = Postgres::build(sample_query());

    let placeholders = sql.chars().filter(|c| *c == '$').count();
    assert_eq!(placeholders, params.len());
}

#[test]
fn in_over_empty_row_collapses_to_false() {
    let mut query = Select::from_table(Table::from("users"));
    query.so_that(ConditionTree::from(col("id").in_selection(Expression::from(Row::new()))));

    let (sql, params) = Postgres::build(Query::from(query));

    assert_eq!("SELECT \"users\".* FROM \"users\" WHERE 1=0", sql);
    assert_eq!(Vec::<Value>::new(), params);
}

#[test]
fn not_in_over_empty_row_collapses_to_true() {
    let mut query = Select::from_table(Table::from("users"));
    query.so_that(ConditionTree::from(col("id").not_in_selection(Expression::from(Row::new()))));

    let (sql, _) = Postgres::build(Query::from(query));

    assert_eq!("SELECT \"users\".* FROM \"users\" WHERE 1=1", sql);
}

#[test]
fn in_singleton_flattens_to_equality() {
    let left = Expression::from(Row::from(vec![col("id")]));
    let right = Expression::from(Values::new(vec![Row::from(vec![val(Value::from(5))])]));

    let mut query = Select::from_table(Table::from("users"));
    query.so_that(ConditionTree::from(left.in_selection(right)));

    let (sql, params) = Postgres::build(Query::from(query));

    assert_eq!("SELECT \"users\".* FROM \"users\" WHERE \"id\" = ($1)", sql);
    assert_eq!(vec![Value::from(5)], params);
}

#[test]
fn in_over_single_parameter_renders_as_equality() {
    let mut query = Select::from_table(Table::from("users"));
    query.so_that(ConditionTree::from(col("id").in_selection(val(Value::from(5)))));

    let (sql, params) = Postgres::build(Query::from(query));

    assert_eq!("SELECT \"users\".* FROM \"users\" WHERE \"id\" = $1", sql);
    assert_eq!(vec![Value::from(5)], params);
}

#[test]
fn and_chains_render_flat() {
    let tree = ConditionTree::from(col("a").equals(val(Value::from(1))))
        .and(Expression::from(col("b").equals(val(Value::from(2)))))
        .and(Expression::from(col("c").equals(val(Value::from(3)))));

    let mut query = Select::from_table(Table::from("t"));
    query.so_that(tree);

    let (sql, params) = Postgres::build(Query::from(query));

    assert_eq!(
        "SELECT \"t\".* FROM \"t\" WHERE (\"a\" = $1 AND \"b\" = $2 AND \"c\" = $3)",
        sql
    );
    assert_eq!(vec![Value::from(1), Value::from(2), Value::from(3)], params);
}

#[test]
fn value_without_alias_has_no_as() {
    let mut query = Select::from_table(Table::from("users"));
    query.value(val(Value::from(1)));

    let (sql, params) = Postgres::build(Query::from(query));

    assert_eq!("SELECT $1 FROM \"users\"", sql);
    assert_eq!(vec![Value::from(1)], params);
}

#[test]
fn bare_delete() {
    let query = Delete::from_table(Table::from("users"));
    let (sql, params) = Postgres::build(Query::from(query));

    assert_eq!("DELETE FROM \"users\"", sql);
    assert_eq!(Vec::<Value>::new(), params);
}

#[test]
fn delete_with_conditions() {
    let query = Delete::from_table(Table::from("users"))
        .so_that(ConditionTree::from(col("bar").equals(val(Value::from(false)))));
    let (sql, params) = Postgres::build(Query::from(query));

    assert_eq!("DELETE FROM \"users\" WHERE \"bar\" = $1", sql);
    assert_eq!(vec![Value::from(false)], params);
}

#[test]
fn update_with_conditions() {
    let query = Update::table(Table::from("users"))
        .set(Column::from("foo"), val(Value::from(1)))
        .so_that(ConditionTree::from(col("bar").equals(val(Value::from(false)))));
    let (sql, params) = Postgres::build(Query::from(query));

    assert_eq!("UPDATE \"users\" SET \"foo\" = $1 WHERE \"bar\" = $2", sql);
    assert_eq!(vec![Value::from(1), Value::from(false)], params);
}

#[test]
fn join_on_query_table_is_refused() {
    let mut inner = Select::from_table(Table::from("posts"));
    inner.column(Column::from("id"));

    let result = Table::from(inner).left_join(JoinData::from(Table::from("users")));

    assert_eq!(Err(JoinError::TargetIsQuery), result.map(|_| ()));
}

#[test]
fn join_on_values_table_is_refused() {
    let table = Table {
        typ: sql_ast::ast::TableType::Values(Values::new(vec![Row::from(vec![val(Value::from(1))])])),
        alias: None,
        database: None,
    };

    let result = table.inner_join(JoinData::from(Table::from("users")));

    assert_eq!(Err(JoinError::TargetIsValues), result.map(|_| ()));
}

#[test]
fn join_error_messages() {
    assert_eq!("cannot join on a table of type Query", JoinError::TargetIsQuery.message());
    assert_eq!("cannot join on a table of type Values", JoinError::TargetIsValues.message());
}

#[test]
fn json_extract_renders_array_path_parameters() {
    let extract = json_extract(
        col("jsonField"),
        JsonPath::array(vec![String::from("a"), String::from("b")]),
        true,
    );

    let mut query = Select::from_table(Table::from("test"));
    query.value(Expression::from(extract));

    let (sql, params) = Postgres::build(Query::from(query));

    assert_eq!(
        "SELECT (\"jsonField\"#>>ARRAY[$1, $2]::text[]) FROM \"test\"",
        sql
    );
    assert_eq!(vec![Value::from("a"), Value::from("b")], params);
}

#[test]
fn query_classification() {
    let select = Query::from(Select::from_table(Table::from("t")));
    let delete = Query::from(Delete::from_table(Table::from("t")));
    let update = Query::from(Update::table(Table::from("t")));
    let insert = Query::from(Insert::from(Insert::single_into(Table::from("t"))));

    assert!(select.is_select() && !select.is_delete());
    assert!(delete.is_delete() && !delete.is_insert());
    assert!(update.is_update() && !update.is_select());
    assert!(insert.is_insert() && !insert.is_update());
}

#[test]
fn parameters_keep_their_values() {
    let mut query = Select::from_table(Table::from("t"));
    query.so_that(ConditionTree::from(col("a").equals(val(Value::Array(vec![
        Value::from(1),
        Value::from("x"),
        Value::Null,
    ])))));

    let (_, params) = Postgres::build(Query::from(query));

    assert_eq!(
        vec![Value::Array(vec![Value::from(1), Value::from("x"), Value::Null])],
        params
    );
}

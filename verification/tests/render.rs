use sql_ast::ast::{
    default_value, Column, ConditionTree, Expression, Insert, JoinData, OnConflict, Query, Row,
    Select, Table, Update, Value,
};
use sql_ast::renderer::Postgres;

fn expected_values(sql: &'static str, params: Vec<Value>) -> (String, Vec<Value>) {
    (String::from(sql), params)
}

fn default_params(mut additional: Vec<Value>) -> Vec<Value> {
    let mut result = Vec::new();

    for param in additional.drain(0..) {
        result.push(param)
    }

    result
}

fn col(name: &str) -> Expression {
    Expression::from(Column::from(name))
}

fn tcol(table: &str, name: &str) -> Expression {
    Expression::from(Column::from((table, name)))
}

fn val(v: Value) -> Expression {
    Expression::from(v)
}

#[test]
fn test_single_row_insert_default_values() {
    let query = Insert::single_into(Table::from("users"));
    let (sql, params) = Postgres::build(Query::from(Insert::from(query)));

    assert_eq!("INSERT INTO \"users\" DEFAULT VALUES", sql);
    assert_eq!(default_params(vec![]), params);
}

#[test]
fn test_single_row_insert() {
    let expected = expected_values("INSERT INTO \"users\" (\"foo\") VALUES ($1)", vec![Value::from(10)]);
    let query = Insert::single_into(Table::from("users")).value(Column::from("foo"), val(Value::from(10)));
    let (sql, params) = Postgres::build(Query::from(Insert::from(query)));

    assert_eq!(expected.0, sql);
    assert_eq!(expected.1, params);
}

#[test]
fn test_returning_insert() {
    let expected = expected_values(
        "INSERT INTO \"users\" (\"foo\") VALUES ($1) RETURNING \"foo\"",
        vec![Value::from(10)],
    );
    let query = Insert::single_into(Table::from("users")).value(Column::from("foo"), val(Value::from(10)));
    let (sql, params) = Postgres::build(Query::from(
        Insert::from(query).returning(vec![Column::from("foo")]),
    ));

    assert_eq!(expected.0, sql);
    assert_eq!(expected.1, params);
}

#[test]
fn test_insert_on_conflict_update() {
    let expected = expected_values(
        "INSERT INTO \"users\" (\"foo\") VALUES ($1) ON CONFLICT (\"foo\") DO UPDATE SET \"foo\" = $2 WHERE \"users\".\"foo\" = $3 RETURNING \"foo\"",
        vec![Value::from(10), Value::from(3), Value::from(1)],
    );

    let update = Update::table(Table::from("users"))
        .set(Column::from("foo"), val(Value::from(3)))
        .so_that(ConditionTree::from(tcol("users", "foo").equals(val(Value::from(1)))));
    let query: Insert = Insert::from(
        Insert::single_into(Table::from("users")).value(Column::from("foo"), val(Value::from(10))),
    );
    let query = query.on_conflict(OnConflict::Update(update, Vec::from([Column::from("foo")])));
    let (sql, params) = Postgres::build(Query::from(query.returning(vec![Column::from("foo")])));

    assert_eq!(expected.0, sql);
    assert_eq!(expected.1, params);
}

#[test]
fn test_multi_row_insert() {
    let expected = expected_values(
        "INSERT INTO \"users\" (\"foo\") VALUES ($1), ($2)",
        vec![Value::from(10), Value::from(11)],
    );

    let query = Insert::multi_into(Table::from("users"), vec![Column::from("foo")])
        .values(Row::from(vec![val(Value::from(10))]))
        .values(Row::from(vec![val(Value::from(11))]));

    let (sql, params) = Postgres::build(Query::from(Insert::from(query)));

    assert_eq!(expected.0, sql);
    assert_eq!(expected.1, params);
}

#[test]
fn test_limit_and_offset_when_both_are_set() {
    let expected = expected_values(
        "SELECT \"users\".* FROM \"users\" LIMIT $1 OFFSET $2",
        vec![Value::from(10_i64), Value::from(2_i64)],
    );

    let mut query = Select::from_table(Table::from("users"));
    query.limit(10);
    query.offset(2);

    let (sql, params) = Postgres::build(Query::from(query));

    assert_eq!(expected.0, sql);
    assert_eq!(expected.1, params);
}

#[test]
fn test_limit_and_offset_when_only_offset_is_set() {
    let expected = expected_values(
        "SELECT \"users\".* FROM \"users\" OFFSET $1",
        vec![Value::from(10_i64)],
    );

    let mut query = Select::from_table(Table::from("users"));
    query.offset(10);

    let (sql, params) = Postgres::build(Query::from(query));

    assert_eq!(expected.0, sql);
    assert_eq!(expected.1, params);
}

#[test]
fn test_limit_and_offset_when_only_limit_is_set() {
    let expected = expected_values(
        "SELECT \"users\".* FROM \"users\" LIMIT $1",
        vec![Value::from(10_i64)],
    );

    let mut query = Select::from_table(Table::from("users"));
    query.limit(10);

    let (sql, params) = Postgres::build(Query::from(query));

    assert_eq!(expected.0, sql);
    assert_eq!(expected.1, params);
}

#[test]
fn test_distinct() {
    let expected_sql = "SELECT DISTINCT \"bar\" FROM \"test\"";

    let mut query = Select::from_table(Table::from("test"));
    query.column(Column::new("bar"));
    query.distinct();

    let (sql, _) = Postgres::build(Query::from(query));

    assert_eq!(expected_sql, sql);
}

#[test]
fn test_distinct_with_subquery() {
    let expected_sql = "SELECT DISTINCT (SELECT $1 FROM \"test2\"), \"bar\" FROM \"test\"";

    let mut query = Select::from_table(Table::from("test"));

    query.value({
        let mut inner = Select::from_table(Table::from("test2"));
        inner.value(val(Value::from(1)));

        Expression::from(inner)
    });

    query.column(Column::new("bar"));
    query.distinct();

    let (sql, _) = Postgres::build(Query::from(query));

    assert_eq!(expected_sql, sql);
}

#[test]
fn test_from() {
    let expected_sql =
        "SELECT \"foo\".*, \"bar\".\"a\" FROM \"foo\", (SELECT \"a\" FROM \"baz\") AS \"bar\"";

    let mut query = Select::default();
    query.and_from(Table::from("foo"));

    query.and_from(
        Table::from({
            let mut inner = Select::from_table(Table::from("baz"));
            inner.column(Column::from("a"));
            inner
        })
        .alias("bar"),
    );

    query.value(Table::from("foo").asterisk());
    query.column(Column::from(("bar", "a")));

    let (sql, _) = Postgres::build(Query::from(query));
    assert_eq!(expected_sql, sql);
}

#[test]
fn test_like_cast_to_string() {
    let expected = expected_values(
        r#"SELECT "test".* FROM "test" WHERE "jsonField"::text LIKE $1"#,
        vec![Value::from("%foo%")],
    );

    let mut query = Select::from_table(Table::from("test"));
    query.so_that(ConditionTree::from(col("jsonField").like(val(Value::from("%foo%")))));

    let (sql, params) = Postgres::build(Query::from(query));

    assert_eq!(expected.0, sql);
    assert_eq!(expected.1, params);
}

#[test]
fn test_not_like_cast_to_string() {
    let expected = expected_values(
        r#"SELECT "test".* FROM "test" WHERE "jsonField"::text NOT LIKE $1"#,
        vec![Value::from("%foo%")],
    );

    let mut query = Select::from_table(Table::from("test"));
    query.so_that(ConditionTree::from(col("jsonField").not_like(val(Value::from("%foo%")))));

    let (sql, params) = Postgres::build(Query::from(query));

    assert_eq!(expected.0, sql);
    assert_eq!(expected.1, params);
}

#[test]
fn test_begins_with_cast_to_string() {
    let expected = expected_values(
        r#"SELECT "test".* FROM "test" WHERE "jsonField"::text LIKE $1"#,
        vec![Value::from("%foo")],
    );

    let mut query = Select::from_table(Table::from("test"));
    query.so_that(ConditionTree::from(col("jsonField").like(val(Value::from("%foo")))));

    let (sql, params) = Postgres::build(Query::from(query));

    assert_eq!(expected.0, sql);
    assert_eq!(expected.1, params);
}

#[test]
fn test_not_begins_with_cast_to_string() {
    let expected = expected_values(
        r#"SELECT "test".* FROM "test" WHERE "jsonField"::text NOT LIKE $1"#,
        vec![Value::from("%foo")],
    );

    let mut query = Select::from_table(Table::from("test"));
    query.so_that(ConditionTree::from(col("jsonField").not_like(val(Value::from("%foo")))));

    let (sql, params) = Postgres::build(Query::from(query));

    assert_eq!(expected.0, sql);
    assert_eq!(expected.1, params);
}

#[test]
fn test_ends_with_cast_to_string() {
    let expected = expected_values(
        r#"SELECT "test".* FROM "test" WHERE "jsonField"::text LIKE $1"#,
        vec![Value::from("foo%")],
    );

    let mut query = Select::from_table(Table::from("test"));
    query.so_that(ConditionTree::from(col("jsonField").like(val(Value::from("foo%")))));

    let (sql, params) = Postgres::build(Query::from(query));

    assert_eq!(expected.0, sql);
    assert_eq!(expected.1, params);
}

#[test]
fn test_not_ends_with_cast_to_string() {
    let expected = expected_values(
        r#"SELECT "test".* FROM "test" WHERE "jsonField"::text NOT LIKE $1"#,
        vec![Value::from("foo%")],
    );

    let mut query = Select::from_table(Table::from("test"));
    query.so_that(ConditionTree::from(col("jsonField").not_like(val(Value::from("foo%")))));

    let (sql, params) = Postgres::build(Query::from(query));

    assert_eq!(expected.0, sql);
    assert_eq!(expected.1, params);
}

#[test]
fn test_default_insert() {
    let insert = Insert::single_into(Table::from("foo"))
        .value(Column::from("foo"), val(Value::from("bar")))
        .value(Column::from("baz"), default_value());

    let (sql, _) = Postgres::build(Query::from(Insert::from(insert)));

    assert_eq!(
        "INSERT INTO \"foo\" (\"foo\",\"baz\") VALUES ($1,DEFAULT)",
        sql
    );
}

#[test]
fn join_is_inserted_positionally() {
    let join = JoinData::from(Table::from("Post").alias("p"))
        .on(ConditionTree::from(tcol("p", "userId").equals(tcol("User", "id"))));
    let joined_table = Table::from("User").left_join(join).unwrap();

    let mut q = Select::from_table(joined_table);
    q.and_from(Table::from("Toto"));

    let (sql, _) = Postgres::build(Query::from(q));

    assert_eq!("SELECT \"User\".*, \"Toto\".* FROM \"User\" LEFT JOIN \"Post\" AS \"p\" ON \"p\".\"userId\" = \"User\".\"id\", \"Toto\"", sql);
}

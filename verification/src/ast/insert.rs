use vstd::prelude::*;
use crate::ast::column::Column;
use crate::ast::expression::{Expression, ExpressionKind};
use crate::ast::row::Row;
use crate::ast::table::Table;
use crate::ast::update::Update;
use crate::ast::values::Values;

verus! {

/// An `INSERT` statement under construction.
#[derive(Debug)]
pub struct Insert {
    pub table: Option<Table>,
    pub columns: Vec<Column>,
    pub values: Expression,
    pub on_conflict: Option<OnConflict>,
    pub returning: Option<Vec<Column>>,
    pub comment: Option<String>,
}

/// An `INSERT` of a single row under construction.
#[derive(Debug)]
pub struct SingleRowInsert {
    pub table: Option<Table>,
    pub columns: Vec<Column>,
    pub values: Row,
}

/// An `INSERT` of several rows under construction.
#[derive(Debug)]
pub struct MultiRowInsert {
    pub table: Option<Table>,
    pub columns: Vec<Column>,
    pub values: Vec<Row>,
}

/// What to do when an inserted row collides with an existing one.
#[derive(Debug)]
pub enum OnConflict {
    /// Keep the existing row and do nothing.
    DoNothing,
    /// Update the existing row instead, on a conflict over the given columns.
    Update(Update, Vec<Column>),
}

impl Insert {
    /// A single row `INSERT` into the given table.
    pub fn single_into(table: Table) -> (r: SingleRowInsert)
        ensures
            r.table matches Some(t) && t == table,
            r.columns@ == Seq::<Column>::empty(),
            r.values.values@ == Seq::<Expression>::empty(),
    {
        SingleRowInsert { table: Some(table), columns: Vec::new(), values: Row::new() }
    }

    /// A single row `INSERT` with no table given.
    pub fn single() -> (r: SingleRowInsert)
        ensures
            r.table is None,
            r.columns@ == Seq::<Column>::empty(),
            r.values.values@ == Seq::<Expression>::empty(),
    {
        SingleRowInsert { table: None, columns: Vec::new(), values: Row::new() }
    }

    /// A multi row `INSERT` into the given table and columns.
    pub fn multi_into(table: Table, columns: Vec<Column>) -> (r: MultiRowInsert)
        ensures
            r.table matches Some(t) && t == table,
            r.columns == columns,
            r.values@ == Seq::<Row>::empty(),
    {
        MultiRowInsert { table: Some(table), columns, values: Vec::new() }
    }

    /// A multi row `INSERT` with no table given.
    pub fn multi(columns: Vec<Column>) -> (r: MultiRowInsert)
        ensures
            r.table is None,
            r.columns == columns,
            r.values@ == Seq::<Row>::empty(),
    {
        MultiRowInsert { table: None, columns, values: Vec::new() }
    }

    /// An `INSERT` whose values come from an arbitrary expression.
    pub fn expression_into(table: Table, columns: Vec<Column>, expression: Expression) -> (r: Insert)
        ensures
            r.table matches Some(t) && t == table,
            r.columns == columns,
            r.values == expression,
            r.on_conflict is None,
            r.returning is None,
            r.comment is None,
    {
        Insert {
            table: Some(table),
            columns,
            values: expression,
            on_conflict: None,
            returning: None,
            comment: None,
        }
    }

    /// Set the conflict resolution strategy.
    pub fn on_conflict(self, on_conflict: OnConflict) -> (r: Insert)
        ensures
            r.on_conflict matches Some(c) && c == on_conflict,
            r.table == self.table,
            r.columns == self.columns,
            r.values == self.values,
            r.returning == self.returning,
            r.comment == self.comment,
    {
        Insert {
            table: self.table,
            columns: self.columns,
            values: self.values,
            on_conflict: Some(on_conflict),
            returning: self.returning,
            comment: self.comment,
        }
    }

    /// Attach a comment to the insert.
    pub fn comment(self, comment: &str) -> (r: Insert)
        ensures
            r.comment matches Some(c) && c@ == comment@,
            r.table == self.table,
            r.columns == self.columns,
            r.values == self.values,
            r.on_conflict == self.on_conflict,
            r.returning == self.returning,
    {
        Insert {
            table: self.table,
            columns: self.columns,
            values: self.values,
            on_conflict: self.on_conflict,
            returning: self.returning,
            comment: Some(String::from_str(comment)),
        }
    }

    /// Set the columns handed back by `RETURNING`.
    pub fn returning(self, columns: Vec<Column>) -> (r: Insert)
        ensures
            r.returning matches Some(c) && c == columns,
            r.table == self.table,
            r.columns == self.columns,
            r.values == self.values,
            r.on_conflict == self.on_conflict,
            r.comment == self.comment,
    {
        Insert {
            table: self.table,
            columns: self.columns,
            values: self.values,
            on_conflict: self.on_conflict,
            returning: Some(columns),
            comment: self.comment,
        }
    }
}

impl SingleRowInsert {
    /// Add a column and its value to the row.
    pub fn value(self, key: Column, val: Expression) -> (r: SingleRowInsert)
        ensures
            r.table == self.table,
            r.columns@ == self.columns@.push(key),
            r.values.values@ == self.values.values@.push(val),
    {
        let mut columns = self.columns;
        let mut values = self.values;
        columns.push(key);
        values.push(val);
        SingleRowInsert { table: self.table, columns, values }
    }

    /// Turn the builder into a common `Insert` statement.
    pub fn build(self) -> (r: Insert)
        ensures
            single_row_insert(self, r),
    {
        Insert::from(self)
    }
}

/// What a single row builder turns into: an `INSERT` of its row, where a row
/// with no values stands for `DEFAULT VALUES`.
pub open spec fn single_row_insert(b: SingleRowInsert, r: Insert) -> bool {
    &&& r.table == b.table
    &&& r.columns == b.columns
    &&& r.values.kind matches ExpressionKind::Row(row) && row.values@ == b.values.values@
    &&& r.values.alias is None
    &&& r.on_conflict is None
    &&& r.returning is None
    &&& r.comment is None
}

/// What a multi row builder turns into: an `INSERT` of its literal row set.
pub open spec fn multi_row_insert(b: MultiRowInsert, r: Insert) -> bool {
    &&& r.table == b.table
    &&& r.columns == b.columns
    &&& r.values.kind matches ExpressionKind::Values(vs) && vs.rows@ == b.values@
    &&& r.values.alias is None
    &&& r.on_conflict is None
    &&& r.returning is None
    &&& r.comment is None
}

impl MultiRowInsert {
    /// Add one more row to be inserted.
    pub fn values(self, values: Row) -> (r: MultiRowInsert)
        ensures
            r.table == self.table,
            r.columns == self.columns,
            r.values@ == self.values@.push(values),
    {
        let mut rows = self.values;
        rows.push(values);
        MultiRowInsert { table: self.table, columns: self.columns, values: rows }
    }

    /// Turn the builder into a common `Insert` statement.
    pub fn build(self) -> (r: Insert)
        ensures
            multi_row_insert(self, r),
    {
        Insert::from(self)
    }
}

impl From<SingleRowInsert> for Insert {
    fn from(insert: SingleRowInsert) -> (r: Insert)
        ensures
            single_row_insert(insert, r),
    {
        Insert {
            table: insert.table,
            columns: insert.columns,
            values: Expression { kind: ExpressionKind::Row(insert.values), alias: None },
            on_conflict: None,
            returning: None,
            comment: None,
        }
    }
}

impl vstd::std_specs::convert::FromSpecImpl<SingleRowInsert> for Insert {
    open spec fn obeys_from_spec() -> bool {
        false
    }

    open spec fn from_spec(insert: SingleRowInsert) -> Insert {
        arbitrary()
    }
}

impl From<MultiRowInsert> for Insert {
    fn from(insert: MultiRowInsert) -> (r: Insert)
        ensures
            multi_row_insert(insert, r),
    {
        Insert {
            table: insert.table,
            columns: insert.columns,
            values: Expression { kind: ExpressionKind::Values(Values::new(insert.values)), alias: None },
            on_conflict: None,
            returning: None,
            comment: None,
        }
    }
}

impl vstd::std_specs::convert::FromSpecImpl<MultiRowInsert> for Insert {
    open spec fn obeys_from_spec() -> bool {
        false
    }

    open spec fn from_spec(insert: MultiRowInsert) -> Insert {
        arbitrary()
    }
}

} // verus!

use vstd::prelude::*;
use crate::ast::expression::{Expression, ExpressionKind};
use crate::ast::join::{Join, JoinData};
use crate::ast::select::Select;
use crate::ast::values::Values;

verus! {

/// What stands in a table position: a plain identifier, an identifier with
/// joins attached to it, a nested query, or a literal row set.
#[derive(Debug)]
pub enum TableType {
    Table(String),
    JoinedTable(Box<(String, Vec<Join>)>),
    Query(Box<Select>),
    Values(Values),
}

/// A table-position reference, optionally aliased, optionally qualified by a
/// database (schema) name.
#[derive(Debug)]
pub struct Table {
    pub typ: TableType,
    pub alias: Option<String>,
    pub database: Option<String>,
}

/// Attaching a join to a table that cannot carry one.
///
/// A join may only be attached to a plain or an already-joined identifier;
/// nested queries and literal row sets refuse it.
#[derive(Debug, Clone, Copy, PartialEq, Eq, Structural)]
pub enum JoinError {
    /// The join target is a nested query.
    TargetIsQuery,
    /// The join target is a literal row set.
    TargetIsValues,
}

impl JoinError {
    /// The error spelled out, for display at the boundary of the library.
    pub fn message(&self) -> (r: &'static str)
        ensures
            self is TargetIsQuery ==> r@ == "cannot join on a table of type Query"@,
            self is TargetIsValues ==> r@ == "cannot join on a table of type Values"@,
    {
        match self {
            JoinError::TargetIsQuery => "cannot join on a table of type Query",
            JoinError::TargetIsValues => "cannot join on a table of type Values",
        }
    }
}

/// Whether a join may be attached to a table of this shape.
pub open spec fn joinable(typ: TableType) -> bool {
    typ is Table || typ is JoinedTable
}

/// The joins a table carries when one more is attached to it: a plain
/// identifier carries that one join, a joined identifier gains it at the end.
pub open spec fn attached_join(before: Table, j: Join, after: Table) -> bool
    recommends
        joinable(before.typ),
{
    &&& after.alias == before.alias
    &&& after.database == before.database
    &&& match before.typ {
        TableType::Table(name) => {
            &&& after.typ matches TableType::JoinedTable(jt)
            &&& jt.0 == name
            &&& jt.1@ == seq![j]
        },
        TableType::JoinedTable(jt0) => {
            &&& after.typ matches TableType::JoinedTable(jt1)
            &&& jt1.0 == jt0.0
            &&& jt1.1@ == jt0.1@.push(j)
        },
        _ => false,
    }
}

impl Table {
    /// Say in which database (schema) the table lives.
    pub fn database(self, database: &str) -> (r: Table)
        ensures
            r.typ == self.typ,
            r.alias == self.alias,
            r.database matches Some(d) && d@ == database@,
    {
        Table { typ: self.typ, alias: self.alias, database: Some(String::from_str(database)) }
    }

    /// Publish the table under an alias.
    pub fn alias(self, alias: &str) -> (r: Table)
        ensures
            r.typ == self.typ,
            r.database == self.database,
            r.alias matches Some(a) && a@ == alias@,
    {
        Table { typ: self.typ, alias: Some(String::from_str(alias)), database: self.database }
    }

    /// A qualified asterisk to this table.
    pub fn asterisk(self) -> (r: Expression)
        ensures
            r.kind matches ExpressionKind::Asterisk(t) && t matches Some(b) && b == self,
            r.alias is None,
    {
        Expression { kind: ExpressionKind::Asterisk(Some(Box::new(self))), alias: None }
    }

    fn attach_join(self, join: Join) -> (r: Result<Table, JoinError>)
        ensures
            joinable(self.typ) ==> (r matches Ok(t) && attached_join(self, join, t)),
            self.typ is Query ==> (r matches Err(e) && e == JoinError::TargetIsQuery),
            self.typ is Values ==> (r matches Err(e) && e == JoinError::TargetIsValues),
    {
        match self.typ {
            TableType::Table(name) => {
                let mut joins: Vec<Join> = Vec::new();
                joins.push(join);
                proof {
                    assert(joins@ =~= seq![join]);
                }
                Ok(Table {
                    typ: TableType::JoinedTable(Box::new((name, joins))),
                    alias: self.alias,
                    database: self.database,
                })
            },
            TableType::JoinedTable(jt) => {
                let (name, mut joins) = *jt;
                joins.push(join);
                Ok(Table {
                    typ: TableType::JoinedTable(Box::new((name, joins))),
                    alias: self.alias,
                    database: self.database,
                })
            },
            TableType::Query(q) => Err(JoinError::TargetIsQuery),
            TableType::Values(v) => Err(JoinError::TargetIsValues),
        }
    }

    /// Attach a `LEFT JOIN` to this table, so that it renders right after the
    /// table inside the `FROM` list. Refused when the table is a nested query
    /// or a literal row set.
    pub fn left_join(self, join: JoinData) -> (r: Result<Table, JoinError>)
        ensures
            joinable(self.typ) ==> (r matches Ok(t) && attached_join(self, Join::Left(join), t)),
            self.typ is Query ==> (r matches Err(e) && e == JoinError::TargetIsQuery),
            self.typ is Values ==> (r matches Err(e) && e == JoinError::TargetIsValues),
    {
        self.attach_join(Join::Left(join))
    }

    /// Attach an `INNER JOIN` to this table. Refused when the table is a
    /// nested query or a literal row set.
    pub fn inner_join(self, join: JoinData) -> (r: Result<Table, JoinError>)
        ensures
            joinable(self.typ) ==> (r matches Ok(t) && attached_join(self, Join::Inner(join), t)),
            self.typ is Query ==> (r matches Err(e) && e == JoinError::TargetIsQuery),
            self.typ is Values ==> (r matches Err(e) && e == JoinError::TargetIsValues),
    {
        self.attach_join(Join::Inner(join))
    }

    /// Attach a `RIGHT JOIN` to this table. Refused when the table is a
    /// nested query or a literal row set.
    pub fn right_join(self, join: JoinData) -> (r: Result<Table, JoinError>)
        ensures
            joinable(self.typ) ==> (r matches Ok(t) && attached_join(self, Join::Right(join), t)),
            self.typ is Query ==> (r matches Err(e) && e == JoinError::TargetIsQuery),
            self.typ is Values ==> (r matches Err(e) && e == JoinError::TargetIsValues),
    {
        self.attach_join(Join::Right(join))
    }

    /// Attach a `FULL JOIN` to this table. Refused when the table is a nested
    /// query or a literal row set.
    pub fn full_join(self, join: JoinData) -> (r: Result<Table, JoinError>)
        ensures
            joinable(self.typ) ==> (r matches Ok(t) && attached_join(self, Join::Full(join), t)),
            self.typ is Query ==> (r matches Err(e) && e == JoinError::TargetIsQuery),
            self.typ is Values ==> (r matches Err(e) && e == JoinError::TargetIsValues),
    {
        self.attach_join(Join::Full(join))
    }
}

impl<'a> From<&'a str> for Table {
    fn from(s: &'a str) -> (r: Table)
        ensures
            r.typ matches TableType::Table(n) && n@ == s@,
            r.alias is None,
            r.database is None,
    {
        Table { typ: TableType::Table(String::from_str(s)), alias: None, database: None }
    }
}

impl<'a> vstd::std_specs::convert::FromSpecImpl<&'a str> for Table {
    open spec fn obeys_from_spec() -> bool {
        false
    }

    open spec fn from_spec(s: &'a str) -> Table {
        arbitrary()
    }
}

impl From<String> for Table {
    fn from(s: String) -> (r: Table)
        ensures
            r.typ matches TableType::Table(n) && n == s,
            r.alias is None,
            r.database is None,
    {
        Table { typ: TableType::Table(s), alias: None, database: None }
    }
}

impl vstd::std_specs::convert::FromSpecImpl<String> for Table {
    open spec fn obeys_from_spec() -> bool {
        true
    }

    open spec fn from_spec(s: String) -> Table {
        Table { typ: TableType::Table(s), alias: None, database: None }
    }
}

impl<'a, 'b> From<(&'a str, &'b str)> for Table {
    fn from(s: (&'a str, &'b str)) -> (r: Table)
        ensures
            r.typ matches TableType::Table(n) && n@ == s.1@,
            r.alias is None,
            r.database matches Some(d) && d@ == s.0@,
    {
        Table::from(s.1).database(s.0)
    }
}

impl<'a, 'b> vstd::std_specs::convert::FromSpecImpl<(&'a str, &'b str)> for Table {
    open spec fn obeys_from_spec() -> bool {
        false
    }

    open spec fn from_spec(s: (&'a str, &'b str)) -> Table {
        arbitrary()
    }
}

impl From<Select> for Table {
    fn from(select: Select) -> (r: Table)
        ensures
            r.typ matches TableType::Query(q) && q == select,
            r.alias is None,
            r.database is None,
    {
        Table { typ: TableType::Query(Box::new(select)), alias: None, database: None }
    }
}

impl vstd::std_specs::convert::FromSpecImpl<Select> for Table {
    open spec fn obeys_from_spec() -> bool {
        false
    }

    open spec fn from_spec(select: Select) -> Table {
        arbitrary()
    }
}

} // verus!

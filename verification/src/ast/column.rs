use vstd::prelude::*;
use crate::ast::table::Table;

verus! {

/// The length of a column's data type, where a dialect wants one spelled out.
#[derive(Debug, Clone, Copy)]
pub enum TypeDataLength {
    Constant(u16),
    Maximum,
}

/// A column reference: a name, optionally qualified by the table it belongs
/// to, optionally published under an alias.
#[derive(Debug)]
pub struct Column {
    pub name: String,
    pub table: Option<Box<Table>>,
    pub alias: Option<String>,
}

impl Column {
    /// Create a column reference out of a bare name.
    pub fn new(name: &str) -> (r: Column)
        ensures
            r.name@ == name@,
            r.table is None,
            r.alias is None,
    {
        Column { name: String::from_str(name), table: None, alias: None }
    }

    /// A bare version of the column: the name alone, stripped of table and
    /// alias.
    pub fn into_bare(self) -> (r: Column)
        ensures
            r.name == self.name,
            r.table is None,
            r.alias is None,
    {
        Column { name: self.name, table: None, alias: None }
    }

    /// Qualify the column by the given table.
    pub fn table(self, table: Table) -> (r: Column)
        ensures
            r.name == self.name,
            r.alias == self.alias,
            r.table matches Some(t) && t == table,
    {
        Column { name: self.name, table: Some(Box::new(table)), alias: self.alias }
    }

    /// Qualify the column by the given table, if one is given.
    pub fn opt_table(self, table: Option<Table>) -> (r: Column)
        ensures
            r.name == self.name,
            r.alias == self.alias,
            match table {
                Some(t) => r.table matches Some(b) && b == t,
                None => r.table == self.table,
            },
    {
        match table {
            Some(t) => self.table(t),
            None => self,
        }
    }

    /// Publish the column under an alias.
    pub fn alias(self, alias: &str) -> (r: Column)
        ensures
            r.name == self.name,
            r.table == self.table,
            r.alias matches Some(a) && a@ == alias@,
    {
        Column { name: self.name, table: self.table, alias: Some(String::from_str(alias)) }
    }
}

impl<'a> From<&'a str> for Column {
    fn from(s: &'a str) -> (r: Column)
        ensures
            r.name@ == s@,
            r.table is None,
            r.alias is None,
    {
        Column::new(s)
    }
}

impl<'a> vstd::std_specs::convert::FromSpecImpl<&'a str> for Column {
    open spec fn obeys_from_spec() -> bool {
        false
    }

    open spec fn from_spec(s: &'a str) -> Column {
        arbitrary()
    }
}

impl From<String> for Column {
    fn from(s: String) -> (r: Column)
        ensures
            r.name == s,
            r.table is None,
            r.alias is None,
    {
        Column { name: s, table: None, alias: None }
    }
}

impl vstd::std_specs::convert::FromSpecImpl<String> for Column {
    open spec fn obeys_from_spec() -> bool {
        true
    }

    open spec fn from_spec(s: String) -> Column {
        Column { name: s, table: None, alias: None }
    }
}

impl<'a, 'b> From<(&'a str, &'b str)> for Column {
    fn from(t: (&'a str, &'b str)) -> (r: Column)
        ensures
            r.name@ == t.1@,
            r.table matches Some(tb) && tb.typ matches crate::ast::table::TableType::Table(n) && n@ == t.0@,
            r.alias is None,
    {
        Column::new(t.1).table(Table::from(t.0))
    }
}

impl<'a, 'b> vstd::std_specs::convert::FromSpecImpl<(&'a str, &'b str)> for Column {
    open spec fn obeys_from_spec() -> bool {
        false
    }

    open spec fn from_spec(t: (&'a str, &'b str)) -> Column {
        arbitrary()
    }
}

} // verus!

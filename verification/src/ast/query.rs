use vstd::prelude::*;
use crate::ast::delete::Delete;
use crate::ast::insert::Insert;
use crate::ast::select::Select;
use crate::ast::update::Update;

verus! {

/// Any one SQL statement: the four statement shapes under one sum type.
#[derive(Debug)]
pub enum Query {
    Select(Box<Select>),
    Insert(Box<Insert>),
    Update(Box<Update>),
    Delete(Box<Delete>),
}

impl Query {
    /// Whether the query is a `SELECT`.
    pub fn is_select(&self) -> (r: bool)
        ensures
            r == (self is Select),
    {
        matches!(self, Query::Select(_))
    }

    /// Whether the query is an `INSERT`.
    pub fn is_insert(&self) -> (r: bool)
        ensures
            r == (self is Insert),
    {
        matches!(self, Query::Insert(_))
    }

    /// Whether the query is an `UPDATE`.
    pub fn is_update(&self) -> (r: bool)
        ensures
            r == (self is Update),
    {
        matches!(self, Query::Update(_))
    }

    /// Whether the query is a `DELETE`.
    pub fn is_delete(&self) -> (r: bool)
        ensures
            r == (self is Delete),
    {
        matches!(self, Query::Delete(_))
    }
}

impl From<Select> for Query {
    fn from(sel: Select) -> (r: Query)
        ensures
            r matches Query::Select(s) && s == sel,
    {
        Query::Select(Box::new(sel))
    }
}

impl vstd::std_specs::convert::FromSpecImpl<Select> for Query {
    open spec fn obeys_from_spec() -> bool {
        false
    }

    open spec fn from_spec(sel: Select) -> Query {
        arbitrary()
    }
}

impl From<Insert> for Query {
    fn from(insert: Insert) -> (r: Query)
        ensures
            r matches Query::Insert(i) && i == insert,
    {
        Query::Insert(Box::new(insert))
    }
}

impl vstd::std_specs::convert::FromSpecImpl<Insert> for Query {
    open spec fn obeys_from_spec() -> bool {
        false
    }

    open spec fn from_spec(insert: Insert) -> Query {
        arbitrary()
    }
}

impl From<Update> for Query {
    fn from(update: Update) -> (r: Query)
        ensures
            r matches Query::Update(u) && u == update,
    {
        Query::Update(Box::new(update))
    }
}

impl vstd::std_specs::convert::FromSpecImpl<Update> for Query {
    open spec fn obeys_from_spec() -> bool {
        false
    }

    open spec fn from_spec(update: Update) -> Query {
        arbitrary()
    }
}

impl From<Delete> for Query {
    fn from(delete: Delete) -> (r: Query)
        ensures
            r matches Query::Delete(d) && d == delete,
    {
        Query::Delete(Box::new(delete))
    }
}

impl vstd::std_specs::convert::FromSpecImpl<Delete> for Query {
    open spec fn obeys_from_spec() -> bool {
        false
    }

    open spec fn from_spec(delete: Delete) -> Query {
        arbitrary()
    }
}

} // verus!

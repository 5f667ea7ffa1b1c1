//! An abstract syntax tree for SQL queries, together with a verified
//! renderer that lowers a query tree into a parameterized SQL string and
//! the list of values bound to its placeholders.
pub mod ast;
pub mod laws;
pub mod renderer;

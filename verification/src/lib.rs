//! Dialect-aware SQL text for MySQL, PostgreSQL, SQLite and MSSQL.
//!
//! [`schema`] holds the canonical model of a column's type, the decoder
//! that reads the type text which a database reports into that model, and
//! the definition of a column. [`stmts`] holds the statements: each is a
//! value that is configured and then rendered for a dialect. [`text`] holds
//! what both build their text with.
//!
//! Nothing here runs SQL or checks that an identifier or an expression is
//! safe to place in a statement: names, defaults, conditions and values are
//! written as they are given.
//!
//! What lies outside is handed in as a function: the renderer of types, the
//! formatter of index items and the escape of identifiers. A statement says
//! which text it writes around whatever such a function returns.

pub mod schema;
pub mod stmts;
pub mod text;

//! `CREATE`: the statements that create a database, a table or an index.

use vstd::prelude::*;
use crate::schema::column::SQLColumn;
use crate::stmts::create::database::SQLCreateDatabaseStatement;
use crate::stmts::create::index::SQLCreateIndexStatement;
use crate::stmts::create::table::SQLCreateTableStatement;

pub mod database;
pub mod index;
pub mod table;

verus! {

/// Where every `CREATE` statement begins.
pub struct SQLCreateStatement {}

impl SQLCreateStatement {
    /// A `CREATE DATABASE` without `IF NOT EXISTS`.
    pub fn database(&self, database: &str) -> (statement: SQLCreateDatabaseStatement)
        ensures
            statement.database@ == database@,
            !statement.if_not_exists,
    {
        SQLCreateDatabaseStatement { database: String::from_str(database), if_not_exists: false }
    }

    /// A `CREATE TABLE` without `IF NOT EXISTS`, columns or primary index.
    pub fn table(&self, table: &str) -> (statement: SQLCreateTableStatement)
        ensures
            statement.table@ == table@,
            !statement.if_not_exists,
            statement.columns@ == Seq::<SQLColumn>::empty(),
            statement.primary is None,
    {
        SQLCreateTableStatement {
            table: String::from_str(table),
            if_not_exists: false,
            columns: Vec::new(),
            primary: None,
        }
    }

    /// A `CREATE INDEX` of an index that is not unique.
    pub fn index(&self, index: &str) -> (statement: SQLCreateIndexStatement)
        ensures
            statement.index@ == index@,
            !statement.unique,
    {
        SQLCreateIndexStatement { unique: false, index: String::from_str(index) }
    }

    /// A `CREATE UNIQUE INDEX`.
    pub fn unique_index(&self, index: &str) -> (statement: SQLCreateIndexStatement)
        ensures
            statement.index@ == index@,
            statement.unique,
    {
        SQLCreateIndexStatement { unique: true, index: String::from_str(index) }
    }
}

} // verus!

//! `CREATE DATABASE`.

use vstd::prelude::*;
use crate::schema::dialect::SQLDialect;
use crate::stmts::ToSQLString;
use crate::text::{flag, flag_str};

verus! {

/// A `CREATE DATABASE`.
pub struct SQLCreateDatabaseStatement {
    pub database: String,
    pub if_not_exists: bool,
}

/// The database as it is written: bare in PostgreSQL, between backticks in
/// every other dialect.
pub open spec fn database_name(database: Seq<char>, dialect: SQLDialect) -> Seq<char> {
    if dialect == SQLDialect::PostgreSQL {
        database
    } else {
        "`"@ + database + "`"@
    }
}

impl SQLCreateDatabaseStatement {
    /// Asks for `IF NOT EXISTS`.
    pub fn if_not_exists(&mut self) -> (this: &mut Self)
        ensures
            this.if_not_exists,
            this.database == old(self).database,
            *final(self) == *final(this),
    {
        self.if_not_exists = true;
        self
    }
}

impl ToSQLString for SQLCreateDatabaseStatement {
    /// `CREATE DATABASE`, `IF NOT EXISTS` where asked for, the database,
    /// and a semicolon.
    open spec fn text(&self, dialect: SQLDialect) -> Seq<char> {
        "CREATE DATABASE"@ + flag(self.if_not_exists, " IF NOT EXISTS"@) + " "@ + database_name(
            self.database@,
            dialect,
        ) + ";"@
    }

    fn to_string(&self, dialect: SQLDialect) -> (out: String) {
        let mut out = String::from_str("CREATE DATABASE");
        out.append(flag_str(self.if_not_exists, " IF NOT EXISTS"));
        out.append(" ");
        if dialect.is_postgres() {
            out.append(self.database.as_str());
        } else {
            let mut name = String::from_str("`");
            name.append(self.database.as_str());
            name.append("`");
            out.append(name.as_str());
        }
        out.append(";");
        out
    }
}

} // verus!

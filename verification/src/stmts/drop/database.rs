//! `DROP DATABASE`.

use vstd::prelude::*;
use crate::schema::dialect::SQLDialect;
use crate::stmts::ToSQLString;
use crate::text::{flag, flag_str};

verus! {

/// A `DROP DATABASE`.
pub struct SQLDropDatabaseStatement {
    pub database: String,
    pub if_exists: bool,
}

impl SQLDropDatabaseStatement {
    /// Asks for `IF EXISTS`.
    pub fn if_exists(&mut self) -> (this: &mut Self)
        ensures
            this.if_exists,
            this.database == old(self).database,
            *final(self) == *final(this),
    {
        self.if_exists = true;
        self
    }
}

impl ToSQLString for SQLDropDatabaseStatement {
    /// `DROP DATABASE`, `IF EXISTS` where asked for, the database between
    /// backticks, and a semicolon, whatever the dialect.
    open spec fn text(&self, dialect: SQLDialect) -> Seq<char> {
        "DROP DATABASE"@ + flag(self.if_exists, " IF EXISTS"@) + " `"@ + self.database@ + "`;"@
    }

    fn to_string(&self, _dialect: SQLDialect) -> (out: String) {
        let mut out = String::from_str("DROP DATABASE");
        out.append(flag_str(self.if_exists, " IF EXISTS"));
        out.append(" `");
        out.append(self.database.as_str());
        out.append("`;");
        out
    }
}

} // verus!

//! `DROP TABLE`.

use vstd::prelude::*;
use crate::schema::dialect::SQLDialect;
use crate::stmts::ToSQLString;
use crate::text::{flag, flag_str};

verus! {

/// A `DROP TABLE`.
pub struct SQLDropTableStatement {
    pub table: String,
    pub if_exists: bool,
}

impl SQLDropTableStatement {
    /// Asks for `IF EXISTS`.
    pub fn if_exists(&mut self) -> (this: &mut Self)
        ensures
            this.if_exists,
            this.table == old(self).table,
            *final(self) == *final(this),
    {
        self.if_exists = true;
        self
    }
}

impl ToSQLString for SQLDropTableStatement {
    /// `DROP TABLE`, `IF EXISTS` where asked for, the table, and a
    /// semicolon, whatever the dialect. The table stands between single
    /// quotes, unlike the identifiers of every other statement.
    open spec fn text(&self, dialect: SQLDialect) -> Seq<char> {
        "DROP TABLE"@ + flag(self.if_exists, " IF EXISTS"@) + " '"@ + self.table@ + "';"@
    }

    fn to_string(&self, _dialect: SQLDialect) -> (out: String) {
        let mut out = String::from_str("DROP TABLE");
        out.append(flag_str(self.if_exists, " IF EXISTS"));
        out.append(" '");
        out.append(self.table.as_str());
        out.append("';");
        out
    }
}

} // verus!

//! `DESCRIBE`.

use vstd::prelude::*;
use crate::schema::dialect::SQLDialect;
use crate::stmts::ToSQLString;

verus! {

/// A `DESCRIBE` of one table.
pub struct SQLDescribeStatement {
    pub table: String,
}

impl ToSQLString for SQLDescribeStatement {
    /// `DESCRIBE` and the table between backticks, whatever the dialect.
    open spec fn text(&self, dialect: SQLDialect) -> Seq<char> {
        "DESCRIBE `"@ + self.table@ + "`"@
    }

    fn to_string(&self, _dialect: SQLDialect) -> (out: String) {
        let mut out = String::from_str("DESCRIBE `");
        out.append(self.table.as_str());
        out.append("`");
        out
    }
}

} // verus!

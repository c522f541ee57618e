//! `ALTER TABLE ... DROP COLUMN`.

use vstd::prelude::*;
use crate::schema::dialect::SQLDialect;
use crate::stmts::ToSQLString;

verus! {

/// An `ALTER TABLE` that drops one column.
pub struct SQLAlterTableDropColumnStatement {
    pub table: String,
    pub column: String,
}

impl ToSQLString for SQLAlterTableDropColumnStatement {
    /// The table and the column between backticks, whatever the dialect.
    open spec fn text(&self, dialect: SQLDialect) -> Seq<char> {
        "ALTER TABLE `"@ + self.table@ + "` DROP COLUMN `"@ + self.column@ + "`"@
    }

    fn to_string(&self, _dialect: SQLDialect) -> (out: String) {
        let mut out = String::from_str("ALTER TABLE `");
        out.append(self.table.as_str());
        out.append("` DROP COLUMN `");
        out.append(self.column.as_str());
        out.append("`");
        out
    }
}

} // verus!

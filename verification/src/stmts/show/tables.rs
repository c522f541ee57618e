//! `SHOW TABLES`.

use vstd::prelude::*;
use crate::schema::dialect::SQLDialect;
use crate::stmts::ToSQLString;
use crate::text::text_of;

verus! {

/// A `SHOW TABLES`, of all tables or of those whose name is like a
/// pattern.
pub struct SQLShowTablesStatement {
    pub like: Option<String>,
}

/// The filter: nothing without a pattern, else ` LIKE ` and the pattern
/// between double quotes.
pub open spec fn like_clause(pattern: Option<Seq<char>>) -> Seq<char> {
    match pattern {
        Some(pattern) => " LIKE \""@ + pattern + "\""@,
        None => Seq::empty(),
    }
}

impl SQLShowTablesStatement {
    /// Shows only the tables whose name is like the pattern.
    pub fn like(&mut self, name: &str) -> (this: &mut Self)
        ensures
            text_of(this.like) == Some(name@),
            *final(self) == *final(this),
    {
        self.like = Some(String::from_str(name));
        self
    }
}

impl ToSQLString for SQLShowTablesStatement {
    /// `SHOW TABLES` and the filter, whatever the dialect.
    open spec fn text(&self, dialect: SQLDialect) -> Seq<char> {
        "SHOW TABLES"@ + like_clause(text_of(self.like))
    }

    fn to_string(&self, _dialect: SQLDialect) -> (out: String) {
        let mut out = String::from_str("SHOW TABLES");
        match &self.like {
            Some(pattern) => {
                let mut like = String::from_str(" LIKE \"");
                like.append(pattern.as_str());
                like.append("\"");
                out.append(like.as_str());
            },
            None => {},
        }
        out
    }
}

} // verus!

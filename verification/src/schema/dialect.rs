use vstd::prelude::*;

verus! {

/// The SQL dialects that text is produced for and decoded from.
#[derive(Clone, Copy, Debug, PartialEq, Eq, Structural)]
pub enum SQLDialect {
    MySQL,
    PostgreSQL,
    SQLite,
    MSSQL,
}

impl SQLDialect {
    /// The character that encloses an identifier: a double quote for
    /// PostgreSQL, a backtick for every other dialect.
    pub open spec fn quote(self) -> Seq<char> {
        if self == SQLDialect::PostgreSQL {
            seq!['"']
        } else {
            seq!['`']
        }
    }

    /// The identifier-quote character of this dialect.
    pub fn escape(&self) -> (quote: &'static str)
        ensures
            quote@ == self.quote(),
    {
        proof {
            reveal_strlit("\"");
            reveal_strlit("`");
        }
        let quote = match self {
            SQLDialect::PostgreSQL => "\"",
            _ => "`",
        };
        assert(quote@ =~= self.quote());
        quote
    }

    pub fn is_postgres(&self) -> (yes: bool)
        ensures
            yes == (*self == SQLDialect::PostgreSQL),
    {
        match self {
            SQLDialect::PostgreSQL => true,
            _ => false,
        }
    }

    pub fn is_mysql(&self) -> (yes: bool)
        ensures
            yes == (*self == SQLDialect::MySQL),
    {
        match self {
            SQLDialect::MySQL => true,
            _ => false,
        }
    }
}

} // verus!

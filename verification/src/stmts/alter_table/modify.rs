//! `ALTER TABLE ... MODIFY`.

use vstd::prelude::*;
use crate::schema::column::{is_type_renderer, SQLColumn};
use crate::schema::dialect::SQLDialect;
use crate::schema::types::DatabaseType;

verus! {

/// An `ALTER TABLE` that gives one column a new definition.
pub struct SQLAlterTableModifyStatement {
    pub table: String,
    pub column: SQLColumn,
}

impl SQLAlterTableModifyStatement {
    /// The text of the statement around a given column definition.
    ///
    /// SQLite has no `MODIFY`: the definition stands between parentheses
    /// after the table. PostgreSQL names the column and ends in the words
    /// `TYPE column_definition;`, which stand for a type clause that the
    /// caller puts in their place; the definition is not written. Every
    /// other dialect writes `MODIFY` and the definition.
    pub open spec fn text(&self, dialect: SQLDialect, definition: Seq<char>) -> Seq<char> {
        let table = "ALTER TABLE "@ + dialect.quote() + self.table@ + dialect.quote();
        if dialect == SQLDialect::SQLite {
            table + " ("@ + definition + ")"@
        } else if dialect == SQLDialect::PostgreSQL {
            table + " ALTER COLUMN "@ + dialect.quote() + self.column@.name + dialect.quote()
                + " TYPE column_definition;"@
        } else {
            table + " MODIFY "@ + definition
        }
    }

    /// `text` is a text of this statement in the dialect: the statement
    /// around a text of its column.
    pub open spec fn renders_as<F: Fn(&DatabaseType, SQLDialect) -> String>(
        &self,
        dialect: SQLDialect,
        render_type: &F,
        text: Seq<char>,
    ) -> bool {
        exists|definition: Seq<char>| #[trigger]
            self.column.renders_as(dialect, render_type, definition) && text == self.text(
                dialect,
                definition,
            )
    }

    /// The text of the statement in a dialect. The column's type is
    /// written as `render_type` returns it.
    pub fn to_string<F: Fn(&DatabaseType, SQLDialect) -> String>(
        &self,
        dialect: SQLDialect,
        render_type: &F,
    ) -> (out: String)
        requires
            call_requires(*render_type, (&self.column.type_value(), dialect)),
        ensures
            self.renders_as(dialect, render_type, out@),
    {
        let definition = self.column.to_string(dialect, render_type);
        let quote = dialect.escape();
        let mut out = String::from_str("ALTER TABLE ");
        out.append(quote);
        out.append(self.table.as_str());
        out.append(quote);
        match dialect {
            SQLDialect::SQLite => {
                out.append(" (");
                out.append(definition.as_str());
                out.append(")");
            },
            SQLDialect::PostgreSQL => {
                out.append(" ALTER COLUMN ");
                out.append(quote);
                out.append(self.column.name());
                out.append(quote);
                out.append(" TYPE column_definition;");
            },
            _ => {
                out.append(" MODIFY ");
                out.append(definition.as_str());
            },
        }
        assert(out@ == self.text(dialect, definition@));
        out
    }

    /// Where the renderer of types is a function, the statement has one
    /// text only in a dialect: rendering it again gives the same text.
    pub proof fn has_one_text<F: Fn(&DatabaseType, SQLDialect) -> String>(
        &self,
        dialect: SQLDialect,
        render_type: &F,
        first: Seq<char>,
        second: Seq<char>,
    )
        requires
            is_type_renderer(render_type),
            self.renders_as(dialect, render_type, first),
            self.renders_as(dialect, render_type, second),
        ensures
            first == second,
    {
        let a = choose|definition: Seq<char>| #[trigger]
            self.column.renders_as(dialect, render_type, definition) && first == self.text(
                dialect,
                definition,
            );
        let b = choose|definition: Seq<char>| #[trigger]
            self.column.renders_as(dialect, render_type, definition) && second == self.text(
                dialect,
                definition,
            );
        self.column.has_one_text(dialect, render_type, a, b);
    }
}

} // verus!

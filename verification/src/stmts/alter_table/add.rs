//! `ALTER TABLE ... ADD`.

use vstd::prelude::*;
use crate::schema::column::{is_type_renderer, SQLColumn};
use crate::schema::dialect::SQLDialect;
use crate::schema::types::DatabaseType;

verus! {

/// An `ALTER TABLE` that adds one column.
pub struct SQLAlterTableAddStatement {
    pub table: String,
    pub column_def: SQLColumn,
}

impl SQLAlterTableAddStatement {
    /// The text of the statement around a given column definition.
    pub open spec fn text(&self, dialect: SQLDialect, definition: Seq<char>) -> Seq<char> {
        "ALTER TABLE "@ + dialect.quote() + self.table@ + dialect.quote() + " ADD "@ + definition
    }

    /// `text` is a text of this statement in the dialect: the statement
    /// around a text of its column.
    pub open spec fn renders_as<F: Fn(&DatabaseType, SQLDialect) -> String>(
        &self,
        dialect: SQLDialect,
        render_type: &F,
        text: Seq<char>,
    ) -> bool {
        exists|definition: Seq<char>| #[trigger]
            self.column_def.renders_as(dialect, render_type, definition) && text == self.text(
                dialect,
                definition,
            )
    }

    /// The text of the statement in a dialect. The column's type is
    /// written as `render_type` returns it.
    pub fn to_string<F: Fn(&DatabaseType, SQLDialect) -> String>(
        &self,
        dialect: SQLDialect,
        render_type: &F,
    ) -> (out: String)
        requires
            call_requires(*render_type, (&self.column_def.type_value(), dialect)),
        ensures
            self.renders_as(dialect, render_type, out@),
    {
        let definition = self.column_def.to_string(dialect, render_type);
        let mut out = String::from_str("ALTER TABLE ");
        out.append(dialect.escape());
        out.append(self.table.as_str());
        out.append(dialect.escape());
        out.append(" ADD ");
        out.append(definition.as_str());
        assert(out@ == self.text(dialect, definition@));
        out
    }

    /// Where the renderer of types is a function, the statement has one
    /// text only in a dialect: rendering it again gives the same text.
    pub proof fn has_one_text<F: Fn(&DatabaseType, SQLDialect) -> String>(
        &self,
        dialect: SQLDialect,
        render_type: &F,
        first: Seq<char>,
        second: Seq<char>,
    )
        requires
            is_type_renderer(render_type),
            self.renders_as(dialect, render_type, first),
            self.renders_as(dialect, render_type, second),
        ensures
            first == second,
    {
        let a = choose|definition: Seq<char>| #[trigger]
            self.column_def.renders_as(dialect, render_type, definition) && first == self.text(
                dialect,
                definition,
            );
        let b = choose|definition: Seq<char>| #[trigger]
            self.column_def.renders_as(dialect, render_type, definition) && second == self.text(
                dialect,
                definition,
            );
        self.column_def.has_one_text(dialect, render_type, a, b);
    }
}

} // verus!

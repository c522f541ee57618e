//! The definition of a column, and its text in a dialect.

use vstd::prelude::*;
use crate::schema::dialect::SQLDialect;
use crate::schema::types::{DatabaseType, DatabaseTypeView};
use crate::text::{clause, clause_string, flag, flag_str, text_of};

verus! {

/// The definition of one column of a table.
///
/// The default, where there is one, is an SQL expression that is placed as
/// it stands. Only the default can be replaced after construction.
#[derive(Debug, PartialEq, Eq, Hash)]
pub struct SQLColumn {
    name: String,
    column_type: DatabaseType,
    not_null: bool,
    auto_increment: bool,
    default: Option<String>,
    primary_key: bool,
}

/// What a column definition holds, with each string as its characters.
pub struct SQLColumnView {
    pub name: Seq<char>,
    pub column_type: DatabaseTypeView,
    pub not_null: bool,
    pub auto_increment: bool,
    pub default: Option<Seq<char>>,
    pub primary_key: bool,
}

impl View for SQLColumn {
    type V = SQLColumnView;

    closed spec fn view(&self) -> SQLColumnView {
        SQLColumnView {
            name: self.name@,
            column_type: self.column_type@,
            not_null: self.not_null,
            auto_increment: self.auto_increment,
            default: text_of(self.default),
            primary_key: self.primary_key,
        }
    }
}

impl Clone for SQLColumn {
    fn clone(&self) -> (copy: Self)
        ensures
            copy@ == self@,
            copy.type_value()@ == self.type_value()@,
    {
        SQLColumn {
            name: self.name.clone(),
            column_type: self.column_type.clone(),
            not_null: self.not_null,
            auto_increment: self.auto_increment,
            default: match &self.default {
                Some(expression) => Some(expression.clone()),
                None => None,
            },
            primary_key: self.primary_key,
        }
    }
}

/// The default clause: empty where the column has no default, else
/// `DEFAULT` and the expression as it stands.
pub open spec fn default_clause(column: SQLColumnView) -> Seq<char> {
    clause(" DEFAULT "@, column.default)
}

/// The nullability, which is always written.
pub open spec fn nullability(column: SQLColumnView) -> Seq<char> {
    if column.not_null {
        " NOT NULL"@
    } else {
        " NULL"@
    }
}

/// The primary-key mark of a column that has one.
pub open spec fn primary_mark(column: SQLColumnView) -> Seq<char> {
    flag(column.primary_key, " PRIMARY KEY"@)
}

/// The type as it is written: `SERIAL` for an auto-incremented column in
/// PostgreSQL, else the text of the type.
pub open spec fn written_type(column: SQLColumnView, dialect: SQLDialect, type_text: Seq<char>) -> Seq<
    char,
> {
    if dialect == SQLDialect::PostgreSQL && column.auto_increment {
        "SERIAL"@
    } else {
        type_text
    }
}

/// The keyword that ends an auto-incremented column: none in PostgreSQL,
/// `AUTO_INCREMENT` in MySQL, `AUTOINCREMENT` in every other dialect.
pub open spec fn auto_increment_keyword(column: SQLColumnView, dialect: SQLDialect) -> Seq<char> {
    if !column.auto_increment || dialect == SQLDialect::PostgreSQL {
        Seq::empty()
    } else if dialect == SQLDialect::MySQL {
        " AUTO_INCREMENT"@
    } else {
        " AUTOINCREMENT"@
    }
}

/// The text of a column definition in a dialect, given the text of its
/// type: the quoted name, the type, the default, the nullability, the
/// primary-key mark and the auto-increment keyword, in this order.
pub open spec fn column_text(column: SQLColumnView, dialect: SQLDialect, type_text: Seq<char>) -> Seq<
    char,
> {
    dialect.quote() + column.name + dialect.quote() + " "@ + written_type(
        column,
        dialect,
        type_text,
    ) + default_clause(column) + nullability(column) + primary_mark(column)
        + auto_increment_keyword(column, dialect)
}

/// `render_type` is a function: for one type and one dialect it returns
/// one text only.
pub open spec fn is_type_renderer<F: Fn(&DatabaseType, SQLDialect) -> String>(
    render_type: &F,
) -> bool {
    forall|column_type: DatabaseType, dialect: SQLDialect, first: String, second: String|
        #![trigger call_ensures(*render_type, (&column_type, dialect), first), call_ensures(*render_type, (&column_type, dialect), second)]
        call_ensures(*render_type, (&column_type, dialect), first) && call_ensures(
            *render_type,
            (&column_type, dialect),
            second,
        ) ==> first@ == second@
}

impl SQLColumn {
    /// The type of the column, as the value that a renderer is called with.
    pub closed spec fn type_value(&self) -> DatabaseType {
        self.column_type
    }

    /// `text` is a text of this column in the dialect: its definition
    /// around a text that `render_type` may return for its type.
    pub open spec fn renders_as<F: Fn(&DatabaseType, SQLDialect) -> String>(
        &self,
        dialect: SQLDialect,
        render_type: &F,
        text: Seq<char>,
    ) -> bool {
        exists|type_text: String| #[trigger]
            call_ensures(*render_type, (&self.type_value(), dialect), type_text) && text
                == column_text(self@, dialect, type_text@)
    }

    pub fn new(
        name: String,
        column_type: DatabaseType,
        not_null: bool,
        auto_increment: bool,
        default: Option<String>,
        primary_key: bool,
    ) -> (column: Self)
        ensures
            column@ == (SQLColumnView {
                name: name@,
                column_type: column_type@,
                not_null,
                auto_increment,
                default: text_of(default),
                primary_key,
            }),
            column.type_value() == column_type,
    {
        Self { name, column_type, not_null, auto_increment, default, primary_key }
    }

    pub fn name(&self) -> (name: &str)
        ensures
            name@ == self@.name,
    {
        self.name.as_str()
    }

    pub fn column_type(&self) -> (column_type: &DatabaseType)
        ensures
            *column_type == self.type_value(),
            column_type@ == self@.column_type,
    {
        &self.column_type
    }

    pub fn not_null(&self) -> (not_null: bool)
        ensures
            not_null == self@.not_null,
    {
        self.not_null
    }

    /// The column accepts `NULL`.
    pub fn null(&self) -> (null: bool)
        ensures
            null == !self@.not_null,
    {
        !self.not_null
    }

    pub fn auto_increment(&self) -> (auto_increment: bool)
        ensures
            auto_increment == self@.auto_increment,
    {
        self.auto_increment
    }

    pub fn default(&self) -> (default: Option<&str>)
        ensures
            match default {
                Some(expression) => self@.default == Some(expression@),
                None => self@.default is None,
            },
    {
        match &self.default {
            Some(expression) => Some(expression.as_str()),
            None => None,
        }
    }

    pub fn primary_key(&self) -> (primary_key: bool)
        ensures
            primary_key == self@.primary_key,
    {
        self.primary_key
    }

    /// Replaces the default; nothing else changes.
    pub fn set_default(&mut self, default: Option<String>)
        ensures
            final(self)@ == (SQLColumnView { default: text_of(default), ..old(self)@ }),
            final(self).type_value() == old(self).type_value(),
    {
        self.default = default;
    }

    /// The text of the column definition in a dialect. The type's text is
    /// what `render_type` returns for the column's type and the dialect.
    pub fn to_string<F: Fn(&DatabaseType, SQLDialect) -> String>(
        &self,
        dialect: SQLDialect,
        render_type: &F,
    ) -> (out: String)
        requires
            call_requires(*render_type, (&self.type_value(), dialect)),
        ensures
            self.renders_as(dialect, render_type, out@),
    {
        let type_text = render_type(&self.column_type, dialect);
        let serial = dialect.is_postgres() && self.auto_increment;
        let mut out = String::from_str(dialect.escape());
        out.append(self.name.as_str());
        out.append(dialect.escape());
        out.append(" ");
        out.append(if serial {
            "SERIAL"
        } else {
            type_text.as_str()
        });
        out.append(clause_string(" DEFAULT ", &self.default).as_str());
        out.append(if self.not_null {
            " NOT NULL"
        } else {
            " NULL"
        });
        out.append(flag_str(self.primary_key, " PRIMARY KEY"));
        if self.auto_increment && !dialect.is_postgres() {
            out.append(if dialect.is_mysql() {
                " AUTO_INCREMENT"
            } else {
                " AUTOINCREMENT"
            });
        }
        out
    }

    /// Where the renderer of types is a function, a column has one text
    /// only in a dialect: rendering it again gives the same text.
    pub proof fn has_one_text<F: Fn(&DatabaseType, SQLDialect) -> String>(
        &self,
        dialect: SQLDialect,
        render_type: &F,
        first: Seq<char>,
        second: Seq<char>,
    )
        requires
            is_type_renderer(render_type),
            self.renders_as(dialect, render_type, first),
            self.renders_as(dialect, render_type, second),
        ensures
            first == second,
    {
        let a = choose|t: String| #[trigger]
            call_ensures(*render_type, (&self.type_value(), dialect), t) && first == column_text(
                self@,
                dialect,
                t@,
            );
        let b = choose|t: String| #[trigger]
            call_ensures(*render_type, (&self.type_value(), dialect), t) && second == column_text(
                self@,
                dialect,
                t@,
            );
        assert(a@ == b@);
    }
}

} // verus!

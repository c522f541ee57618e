//! The statements, each a value that is configured and then rendered.

use vstd::prelude::*;
use crate::schema::dialect::SQLDialect;

pub mod alter_table;
pub mod create;
pub mod describe;
pub mod drop;
pub mod select;
pub mod show;
pub mod update;

verus! {

/// A value with one SQL text in each dialect.
pub trait ToSQLString {
    /// The text of the value in a dialect.
    spec fn text(&self, dialect: SQLDialect) -> Seq<char>;

    /// Writes the text of the value in a dialect.
    fn to_string(&self, dialect: SQLDialect) -> (out: String)
        ensures
            out@ == self.text(dialect),
    ;
}

/// Writing a value twice gives the same text twice: what two calls of
/// `to_string` return for one value and one dialect does not differ.
pub proof fn written_twice_is_the_same<S: ToSQLString>(
    value: &S,
    dialect: SQLDialect,
    first: String,
    second: String,
)
    requires
        first@ == value.text(dialect),
        second@ == value.text(dialect),
    ensures
        first@ == second@,
{
}

} // verus!

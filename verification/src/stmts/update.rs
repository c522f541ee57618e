//! `UPDATE`.

use vstd::prelude::*;
use crate::schema::dialect::SQLDialect;
use crate::stmts::ToSQLString;
use crate::text::{join, joined, views};

verus! {

/// An `UPDATE` of one table. Each value is SQL text that is placed as it
/// stands, and so is the condition; an empty condition is no condition.
pub struct SQLUpdateStatement<'a> {
    pub table: &'a str,
    /// The columns to set, each with its new value.
    pub values: Vec<(&'a str, &'a str)>,
    pub where_clause: &'a str,
}

/// One assignment: the quoted column, ` = `, and the value.
pub open spec fn assignment(pair: (&str, &str), dialect: SQLDialect) -> Seq<char> {
    dialect.quote() + pair.0@ + dialect.quote() + " = "@ + pair.1@
}

/// The assignments of the pairs, in order.
pub open spec fn assignments(pairs: Seq<(&str, &str)>, dialect: SQLDialect) -> Seq<Seq<char>> {
    Seq::new(pairs.len(), |i: int| assignment(pairs[i], dialect))
}

/// The condition clause: nothing for an empty condition.
pub open spec fn condition(condition: Seq<char>) -> Seq<char> {
    if condition.len() == 0 {
        Seq::empty()
    } else {
        " WHERE "@ + condition
    }
}

impl<'a> SQLUpdateStatement<'a> {
    /// Sets one more column: the pair of the column and its value.
    pub fn value(&mut self, pair: (&'a str, &'a str)) -> (this: &mut Self)
        ensures
            this.values@ == old(self).values@.push(pair),
            this.table == old(self).table,
            this.where_clause == old(self).where_clause,
            *final(self) == *final(this),
    {
        self.values.push(pair);
        self
    }

    /// Sets more columns, in the order of the pairs.
    pub fn values(&mut self, pairs: Vec<(&'a str, &'a str)>) -> (this: &mut Self)
        ensures
            this.values@ == old(self).values@ + pairs@,
            this.table == old(self).table,
            this.where_clause == old(self).where_clause,
            *final(self) == *final(this),
    {
        let mut pairs = pairs;
        self.values.append(&mut pairs);
        self
    }

    /// Replaces the condition.
    pub fn where_clause(&mut self, condition: &'a str) -> (this: &mut Self)
        ensures
            this.where_clause == condition,
            this.table == old(self).table,
            this.values == old(self).values,
            *final(self) == *final(this),
    {
        self.where_clause = condition;
        self
    }
}

impl<'a> ToSQLString for SQLUpdateStatement<'a> {
    /// `UPDATE`, the quoted table, `SET`, the assignments with a comma
    /// between them, the condition, and a semicolon.
    open spec fn text(&self, dialect: SQLDialect) -> Seq<char> {
        "UPDATE "@ + dialect.quote() + self.table@ + dialect.quote() + " SET "@ + joined(
            assignments(self.values@, dialect),
            ","@,
        ) + condition(self.where_clause@) + ";"@
    }

    fn to_string(&self, dialect: SQLDialect) -> (out: String) {
        let quote = dialect.escape();
        let mut written: Vec<String> = Vec::new();
        let mut i: usize = 0;
        while i < self.values.len()
            invariant
                i <= self.values.len(),
                quote@ == dialect.quote(),
                written.len() == i,
                forall|k: int|
                    0 <= k < i ==> (#[trigger] written@[k])@ == assignment(self.values@[k], dialect),
            decreases self.values.len() - i,
        {
            let pair = self.values[i];
            let mut one = String::from_str(quote);
            one.append(pair.0);
            one.append(quote);
            one.append(" = ");
            one.append(pair.1);
            written.push(one);
            i += 1;
        }
        assert(views(written@) =~= assignments(self.values@, dialect));
        let mut out = String::from_str("UPDATE ");
        out.append(quote);
        out.append(self.table);
        out.append(quote);
        out.append(" SET ");
        out.append(join(&written, ",").as_str());
        if !self.where_clause.is_empty() {
            out.append(" WHERE ");
            out.append(self.where_clause);
        }
        out.append(";");
        out
    }
}

} // verus!

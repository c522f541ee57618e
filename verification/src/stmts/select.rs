//! `SELECT`.

use vstd::prelude::*;
use crate::schema::dialect::SQLDialect;
use crate::text::{
    clause, clause_string, decimal_string, decimal_text, join, joined, text_of, views,
};

verus! {

/// A `SELECT` from one table. The joins, the condition and the order are
/// SQL text that is placed as it stands.
pub struct SQLSelectStatement<'a> {
    /// The columns to select; all columns where there is none.
    pub columns: Option<&'a Vec<&'a str>>,
    pub from: &'a str,
    pub where_clause: Option<String>,
    pub left_join: Option<String>,
    pub inner_join: Option<String>,
    pub order_by: Option<String>,
    /// The greatest number of rows, and the number of rows to skip.
    pub limit: Option<(u64, u64)>,
}

/// The limit clause. PostgreSQL writes the limit and then the offset; the
/// other dialects write the offset first and the limit after a comma.
pub open spec fn limit_clause(limit: Option<(u64, u64)>, dialect: SQLDialect) -> Seq<char> {
    match limit {
        None => Seq::empty(),
        Some((limit, skip)) => if dialect == SQLDialect::PostgreSQL {
            " LIMIT "@ + decimal_text(limit as nat) + " OFFSET "@ + decimal_text(skip as nat)
        } else {
            " LIMIT "@ + decimal_text(skip as nat) + ","@ + decimal_text(limit as nat)
        },
    }
}

fn limit_string(limit: Option<(u64, u64)>, dialect: SQLDialect) -> (out: String)
    ensures
        out@ == limit_clause(limit, dialect),
{
    match limit {
        None => String::new(),
        Some((limit, skip)) => {
            let mut out = String::from_str(" LIMIT ");
            if dialect.is_postgres() {
                out.append(decimal_string(limit).as_str());
                out.append(" OFFSET ");
                out.append(decimal_string(skip).as_str());
            } else {
                out.append(decimal_string(skip).as_str());
                out.append(",");
                out.append(decimal_string(limit).as_str());
            }
            out
        },
    }
}

/// `escape` is a function: for one identifier and one dialect it returns
/// one text only.
pub open spec fn is_escape<E: Fn(&str, SQLDialect) -> String>(escape: &E) -> bool {
    forall|identifier: &str, dialect: SQLDialect, first: String, second: String|
        #![trigger call_ensures(*escape, (identifier, dialect), first), call_ensures(*escape, (identifier, dialect), second)]
        call_ensures(*escape, (identifier, dialect), first) && call_ensures(
            *escape,
            (identifier, dialect),
            second,
        ) ==> first@ == second@
}

impl<'a> SQLSelectStatement<'a> {
    /// The text of the statement around a given projection.
    pub open spec fn text(&self, dialect: SQLDialect, projection: Seq<char>) -> Seq<char> {
        "SELECT "@ + projection + " from "@ + self.from@ + clause(
            " LEFT JOIN "@,
            text_of(self.left_join),
        ) + clause(" INNER JOIN "@, text_of(self.inner_join)) + clause(
            " WHERE "@,
            text_of(self.where_clause),
        ) + clause(" ORDER BY "@, text_of(self.order_by)) + limit_clause(self.limit, dialect)
    }

    /// `projection` is a projection of this statement in the dialect: `*`
    /// where no columns are given, else the columns, each as `escape` may
    /// return it, with a comma and a space between them.
    pub open spec fn projects<E: Fn(&str, SQLDialect) -> String>(
        &self,
        dialect: SQLDialect,
        escape: &E,
        projection: Seq<char>,
    ) -> bool {
        match self.columns {
            None => projection == "*"@,
            Some(columns) => exists|escaped: Seq<String>|
                {
                    &&& escaped.len() == columns.len()
                    &&& forall|i: int|
                        0 <= i < columns.len() ==> call_ensures(
                            *escape,
                            (columns@[i], dialect),
                            #[trigger] escaped[i],
                        )
                    &&& projection == joined(views(escaped), ", "@)
                },
        }
    }

    /// `text` is a text of this statement in the dialect.
    pub open spec fn renders_as<E: Fn(&str, SQLDialect) -> String>(
        &self,
        dialect: SQLDialect,
        escape: &E,
        text: Seq<char>,
    ) -> bool {
        exists|projection: Seq<char>| #[trigger]
            self.projects(dialect, escape, projection) && text == self.text(dialect, projection)
    }

    /// Joins with a `LEFT JOIN`: the text that follows these words.
    pub fn left_join(&mut self, left_join: String) -> (this: &mut Self)
        ensures
            this.left_join == Some(left_join),
            this.columns == old(self).columns,
            this.from == old(self).from,
            this.where_clause == old(self).where_clause,
            this.inner_join == old(self).inner_join,
            this.order_by == old(self).order_by,
            this.limit == old(self).limit,
            *final(self) == *final(this),
    {
        self.left_join = Some(left_join);
        self
    }

    /// Joins with an `INNER JOIN`: the text that follows these words.
    pub fn inner_join(&mut self, inner_join: String) -> (this: &mut Self)
        ensures
            this.inner_join == Some(inner_join),
            this.columns == old(self).columns,
            this.from == old(self).from,
            this.where_clause == old(self).where_clause,
            this.left_join == old(self).left_join,
            this.order_by == old(self).order_by,
            this.limit == old(self).limit,
            *final(self) == *final(this),
    {
        self.inner_join = Some(inner_join);
        self
    }

    /// Selects only the rows that meet the condition.
    pub fn where_clause(&mut self, where_clause: String) -> (this: &mut Self)
        ensures
            this.where_clause == Some(where_clause),
            this.columns == old(self).columns,
            this.from == old(self).from,
            this.left_join == old(self).left_join,
            this.inner_join == old(self).inner_join,
            this.order_by == old(self).order_by,
            this.limit == old(self).limit,
            *final(self) == *final(this),
    {
        self.where_clause = Some(where_clause);
        self
    }

    /// Orders the rows: the text that follows `ORDER BY`.
    pub fn order_by(&mut self, order_by: String) -> (this: &mut Self)
        ensures
            this.order_by == Some(order_by),
            this.columns == old(self).columns,
            this.from == old(self).from,
            this.where_clause == old(self).where_clause,
            this.left_join == old(self).left_join,
            this.inner_join == old(self).inner_join,
            this.limit == old(self).limit,
            *final(self) == *final(this),
    {
        self.order_by = Some(order_by);
        self
    }

    /// Selects at most `limit` rows after the first `skip` rows.
    pub fn limit(&mut self, limit: u64, skip: u64) -> (this: &mut Self)
        ensures
            this.limit == Some((limit, skip)),
            this.columns == old(self).columns,
            this.from == old(self).from,
            this.where_clause == old(self).where_clause,
            this.left_join == old(self).left_join,
            this.inner_join == old(self).inner_join,
            this.order_by == old(self).order_by,
            *final(self) == *final(this),
    {
        self.limit = Some((limit, skip));
        self
    }

    /// The text of the statement in a dialect. Each column is written as
    /// `escape` returns it for the column and the dialect.
    pub fn to_string<E: Fn(&str, SQLDialect) -> String>(
        &self,
        dialect: SQLDialect,
        escape: &E,
    ) -> (out: String)
        requires
            self.columns matches Some(columns) ==> forall|i: int|
                0 <= i < columns.len() ==> call_requires(*escape, (#[trigger] columns@[i], dialect)),
        ensures
            self.renders_as(dialect, escape, out@),
    {
        let projection = match self.columns {
            None => String::from_str("*"),
            Some(columns) => {
                let mut escaped: Vec<String> = Vec::new();
                let mut i: usize = 0;
                while i < columns.len()
                    invariant
                        i <= columns.len(),
                        escaped.len() == i,
                        forall|k: int|
                            0 <= k < columns.len() ==> call_requires(
                                *escape,
                                (#[trigger] columns@[k], dialect),
                            ),
                        forall|k: int|
                            0 <= k < i ==> call_ensures(
                                *escape,
                                (columns@[k], dialect),
                                #[trigger] escaped@[k],
                            ),
                    decreases columns.len() - i,
                {
                    escaped.push(escape(columns[i], dialect));
                    i += 1;
                }
                join(&escaped, ", ")
            },
        };
        assert(self.projects(dialect, escape, projection@));
        let mut out = String::from_str("SELECT ");
        out.append(projection.as_str());
        out.append(" from ");
        out.append(self.from);
        out.append(clause_string(" LEFT JOIN ", &self.left_join).as_str());
        out.append(clause_string(" INNER JOIN ", &self.inner_join).as_str());
        out.append(clause_string(" WHERE ", &self.where_clause).as_str());
        out.append(clause_string(" ORDER BY ", &self.order_by).as_str());
        out.append(limit_string(self.limit, dialect).as_str());
        assert(out@ == self.text(dialect, projection@));
        out
    }

    /// Where the escape of identifiers is a function, the statement has
    /// one text only in a dialect: rendering it again gives the same text.
    pub proof fn has_one_text<E: Fn(&str, SQLDialect) -> String>(
        &self,
        dialect: SQLDialect,
        escape: &E,
        first: Seq<char>,
        second: Seq<char>,
    )
        requires
            is_escape(escape),
            self.renders_as(dialect, escape, first),
            self.renders_as(dialect, escape, second),
        ensures
            first == second,
    {
        let p = choose|projection: Seq<char>| #[trigger]
            self.projects(dialect, escape, projection) && first == self.text(dialect, projection);
        let q = choose|projection: Seq<char>| #[trigger]
            self.projects(dialect, escape, projection) && second == self.text(dialect, projection);
        if let Some(columns) = self.columns {
            let a = choose|escaped: Seq<String>|
                {
                    &&& escaped.len() == columns.len()
                    &&& forall|i: int|
                        0 <= i < columns.len() ==> call_ensures(
                            *escape,
                            (columns@[i], dialect),
                            #[trigger] escaped[i],
                        )
                    &&& p == joined(views(escaped), ", "@)
                };
            let b = choose|escaped: Seq<String>|
                {
                    &&& escaped.len() == columns.len()
                    &&& forall|i: int|
                        0 <= i < columns.len() ==> call_ensures(
                            *escape,
                            (columns@[i], dialect),
                            #[trigger] escaped[i],
                        )
                    &&& q == joined(views(escaped), ", "@)
                };
            assert forall|i: int| 0 <= i < columns.len() implies a[i]@ == b[i]@ by {
                assert(call_ensures(*escape, (columns@[i], dialect), a[i]));
                assert(call_ensures(*escape, (columns@[i], dialect), b[i]));
            }
            assert(views(a) =~= views(b));
        }
    }
}

} // verus!

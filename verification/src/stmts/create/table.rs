//! `CREATE TABLE`.

use vstd::prelude::*;
use crate::schema::column::{is_type_renderer, SQLColumn};
use crate::schema::dialect::SQLDialect;
use crate::schema::index::{
    format_items, is_item_formatter, items_format_as, items_have_one_text, IndexItem,
};
use crate::schema::types::DatabaseType;
use crate::text::{flag, flag_str, joined, views};

verus! {

/// A `CREATE TABLE` with its columns and, where it has one, the items of
/// its primary index.
pub struct SQLCreateTableStatement {
    pub table: String,
    pub if_not_exists: bool,
    pub columns: Vec<SQLColumn>,
    pub primary: Option<Vec<IndexItem>>,
}

/// The primary-key clause: nothing without a primary index, else the texts
/// of its items between the parentheses of `PRIMARY KEY (..)`, with a comma
/// and a space between them.
pub open spec fn primary_key_clause(items: Option<Seq<Seq<char>>>) -> Seq<char> {
    match items {
        Some(items) => ", PRIMARY KEY ("@ + joined(items, ", "@) + ")"@,
        None => Seq::empty(),
    }
}

/// Calls `array_tool::vec::Join::join`, which writes the strings in order
/// and the separator between each two of them; of no strings it makes the
/// empty text.
#[verifier::external_body]
fn join_with(parts: &Vec<String>, separator: &'static str) -> (out: String)
    ensures
        out@ == joined(views(parts@), separator@),
{
    array_tool::vec::Join::join(parts, separator)
}

impl SQLCreateTableStatement {
    /// The text of the statement around the given texts of its columns
    /// and of the items of its primary index: `CREATE TABLE`, `IF NOT
    /// EXISTS` where asked for, the quoted table, and between parentheses
    /// the columns with a comma and a space between them and the
    /// primary-key clause; then a semicolon.
    ///
    /// The primary-key clause is written for the primary index alone: a
    /// column that is marked as primary key carries its own mark as well.
    pub open spec fn text(
        &self,
        dialect: SQLDialect,
        definitions: Seq<Seq<char>>,
        primary: Option<Seq<Seq<char>>>,
    ) -> Seq<char> {
        "CREATE TABLE"@ + flag(self.if_not_exists, " IF NOT EXISTS"@) + " "@ + dialect.quote()
            + self.table@ + dialect.quote() + "( "@ + joined(definitions, ", "@)
            + primary_key_clause(primary) + " );"@
    }

    /// `definitions` are texts of the columns in the dialect: as many,
    /// and each a text of its column.
    pub open spec fn defines<F: Fn(&DatabaseType, SQLDialect) -> String>(
        &self,
        dialect: SQLDialect,
        render_type: &F,
        definitions: Seq<Seq<char>>,
    ) -> bool {
        &&& definitions.len() == self.columns.len()
        &&& forall|i: int|
            0 <= i < self.columns.len() ==> (#[trigger] self.columns@[i]).renders_as(
                dialect,
                render_type,
                definitions[i],
            )
    }

    /// `primary` are texts of the items of the primary index, where there
    /// is one: each as `format_item` may return it for an item that stands
    /// in a primary-key clause.
    pub open spec fn formats_primary<G: Fn(SQLDialect, &IndexItem, bool) -> String>(
        &self,
        dialect: SQLDialect,
        format_item: &G,
        primary: Option<Seq<Seq<char>>>,
    ) -> bool {
        match self.primary {
            Some(items) => primary matches Some(texts) && items_format_as(
                items@,
                dialect,
                true,
                format_item,
                texts,
            ),
            None => primary is None,
        }
    }

    /// `text` is a text of this statement in the dialect.
    pub open spec fn renders_as<
        F: Fn(&DatabaseType, SQLDialect) -> String,
        G: Fn(SQLDialect, &IndexItem, bool) -> String,
    >(&self, dialect: SQLDialect, render_type: &F, format_item: &G, text: Seq<char>) -> bool {
        exists|definitions: Seq<Seq<char>>, primary: Option<Seq<Seq<char>>>|
            {
                &&& #[trigger] self.defines(dialect, render_type, definitions)
                &&& #[trigger] self.formats_primary(dialect, format_item, primary)
                &&& text == self.text(dialect, definitions, primary)
            }
    }

    /// Asks for `IF NOT EXISTS`.
    pub fn if_not_exists(&mut self) -> (this: &mut Self)
        ensures
            this.if_not_exists,
            this.table == old(self).table,
            this.columns == old(self).columns,
            this.primary == old(self).primary,
            *final(self) == *final(this),
    {
        self.if_not_exists = true;
        self
    }

    /// Adds one column after those that the table has.
    pub fn column(&mut self, def: SQLColumn) -> (this: &mut Self)
        ensures
            this.columns@ == old(self).columns@.push(def),
            this.table == old(self).table,
            this.if_not_exists == old(self).if_not_exists,
            this.primary == old(self).primary,
            *final(self) == *final(this),
    {
        self.columns.push(def);
        self
    }

    /// Adds columns after those that the table has, in their order.
    pub fn columns(&mut self, defs: Vec<SQLColumn>) -> (this: &mut Self)
        ensures
            this.columns@ == old(self).columns@ + defs@,
            this.table == old(self).table,
            this.if_not_exists == old(self).if_not_exists,
            this.primary == old(self).primary,
            *final(self) == *final(this),
    {
        let mut defs = defs;
        self.columns.append(&mut defs);
        self
    }

    /// Gives the table a primary index: its items, in order. An earlier
    /// primary index is replaced.
    pub fn primary(&mut self, index: Vec<IndexItem>) -> (this: &mut Self)
        ensures
            this.primary == Some(index),
            this.table == old(self).table,
            this.if_not_exists == old(self).if_not_exists,
            this.columns == old(self).columns,
            *final(self) == *final(this),
    {
        self.primary = Some(index);
        self
    }

    /// The text of the statement in a dialect. The type of each column is
    /// written as `render_type` returns it, and each item of the primary
    /// index as `format_item` returns it for the dialect, the item and
    /// `true`.
    pub fn to_string<
        F: Fn(&DatabaseType, SQLDialect) -> String,
        G: Fn(SQLDialect, &IndexItem, bool) -> String,
    >(&self, dialect: SQLDialect, render_type: &F, format_item: &G) -> (out: String)
        requires
            forall|i: int|
                0 <= i < self.columns.len() ==> call_requires(
                    *render_type,
                    (&(#[trigger] self.columns@[i]).type_value(), dialect),
                ),
            self.primary matches Some(items) ==> forall|i: int|
                0 <= i < items.len() ==> call_requires(
                    *format_item,
                    (dialect, #[trigger] &items@[i], true),
                ),
        ensures
            self.renders_as(dialect, render_type, format_item, out@),
    {
        let mut definitions: Vec<String> = Vec::new();
        let mut i: usize = 0;
        while i < self.columns.len()
            invariant
                i <= self.columns.len(),
                definitions.len() == i,
                forall|k: int|
                    0 <= k < self.columns.len() ==> call_requires(
                        *render_type,
                        (&(#[trigger] self.columns@[k]).type_value(), dialect),
                    ),
                forall|k: int|
                    0 <= k < i ==> (#[trigger] self.columns@[k]).renders_as(
                        dialect,
                        render_type,
                        definitions@[k]@,
                    ),
            decreases self.columns.len() - i,
        {
            definitions.push(self.columns[i].to_string(dialect, render_type));
            i += 1;
        }
        let mut columns = join_with(&definitions, ", ");
        let ghost primary: Option<Seq<Seq<char>>> = None;
        match &self.primary {
            Some(items) => {
                let formatted = format_items(items, dialect, true, format_item);
                let mut clause = String::from_str(", PRIMARY KEY (");
                clause.append(join_with(&formatted, ", ").as_str());
                clause.append(")");
                columns.append(clause.as_str());
                proof {
                    primary = Some(views(formatted@));
                }
            },
            None => {},
        }
        let mut out = String::from_str("CREATE TABLE");
        out.append(flag_str(self.if_not_exists, " IF NOT EXISTS"));
        out.append(" ");
        out.append(dialect.escape());
        out.append(self.table.as_str());
        out.append(dialect.escape());
        out.append("( ");
        out.append(columns.as_str());
        out.append(" );");
        proof {
            let texts = views(definitions@);
            assert(self.defines(dialect, render_type, texts));
            assert(self.formats_primary(dialect, format_item, primary));
            assert(out@ == self.text(dialect, texts, primary));
        }
        out
    }

    /// Where the renderer of types and the formatter of items are
    /// functions, the statement has one text only in a dialect: rendering
    /// it again gives the same text.
    pub proof fn has_one_text<
        F: Fn(&DatabaseType, SQLDialect) -> String,
        G: Fn(SQLDialect, &IndexItem, bool) -> String,
    >(
        &self,
        dialect: SQLDialect,
        render_type: &F,
        format_item: &G,
        first: Seq<char>,
        second: Seq<char>,
    )
        requires
            is_type_renderer(render_type),
            is_item_formatter(format_item),
            self.renders_as(dialect, render_type, format_item, first),
            self.renders_as(dialect, render_type, format_item, second),
        ensures
            first == second,
    {
        let (a, p) = choose|definitions: Seq<Seq<char>>, primary: Option<Seq<Seq<char>>>|
            {
                &&& #[trigger] self.defines(dialect, render_type, definitions)
                &&& #[trigger] self.formats_primary(dialect, format_item, primary)
                &&& first == self.text(dialect, definitions, primary)
            };
        let (b, q) = choose|definitions: Seq<Seq<char>>, primary: Option<Seq<Seq<char>>>|
            {
                &&& #[trigger] self.defines(dialect, render_type, definitions)
                &&& #[trigger] self.formats_primary(dialect, format_item, primary)
                &&& second == self.text(dialect, definitions, primary)
            };
        assert forall|i: int| 0 <= i < self.columns.len() implies a[i] == b[i] by {
            self.columns@[i].has_one_text(dialect, render_type, a[i], b[i]);
        }
        assert(a =~= b);
        if let Some(items) = self.primary {
            items_have_one_text(items@, dialect, true, format_item, p->0, q->0);
        }
    }
}

} // verus!

//! `CREATE INDEX`.

use vstd::prelude::*;
use crate::schema::dialect::SQLDialect;
use crate::schema::index::{
    format_items, is_item_formatter, items_format_as, items_have_one_text, IndexItem,
};
use crate::text::{flag, flag_str, join, joined};

verus! {

/// A `CREATE INDEX` that has its name and still lacks its table.
pub struct SQLCreateIndexStatement {
    pub unique: bool,
    pub index: String,
}

/// A `CREATE INDEX` on a table, over the columns of its items.
pub struct SQLCreateIndexOnStatement {
    pub unique: bool,
    pub index: String,
    pub table: String,
    pub columns: Vec<IndexItem>,
}

impl SQLCreateIndexStatement {
    /// The index on a table, with no columns yet.
    pub fn on(&self, table: &str) -> (statement: SQLCreateIndexOnStatement)
        ensures
            statement.unique == self.unique,
            statement.index@ == self.index@,
            statement.table@ == table@,
            statement.columns@ == Seq::<IndexItem>::empty(),
    {
        SQLCreateIndexOnStatement {
            unique: self.unique,
            index: self.index.clone(),
            table: String::from_str(table),
            columns: Vec::new(),
        }
    }
}

impl SQLCreateIndexOnStatement {
    /// Adds one column to the index.
    pub fn column(&mut self, column: IndexItem) -> (this: &mut Self)
        ensures
            this.columns@ == old(self).columns@.push(column),
            this.unique == old(self).unique,
            this.index == old(self).index,
            this.table == old(self).table,
            *final(self) == *final(this),
    {
        self.columns.push(column);
        self
    }

    /// Adds columns to the index, in their order.
    pub fn columns(&mut self, columns: Vec<IndexItem>) -> (this: &mut Self)
        ensures
            this.columns@ == old(self).columns@ + columns@,
            this.unique == old(self).unique,
            this.index == old(self).index,
            this.table == old(self).table,
            *final(self) == *final(this),
    {
        let mut columns = columns;
        self.columns.append(&mut columns);
        self
    }

    /// The text of the statement around the given texts of its items:
    /// `CREATE`, `UNIQUE` for a unique index, the index and the table
    /// between backticks, and the items between parentheses with a comma
    /// and a space between them.
    pub open spec fn text(&self, items: Seq<Seq<char>>) -> Seq<char> {
        "CREATE"@ + flag(self.unique, " UNIQUE"@) + " INDEX `"@ + self.index@ + "` ON `"@
            + self.table@ + "`("@ + joined(items, ", "@) + ")"@
    }

    /// `text` is a text of this statement in the dialect: the statement
    /// around its items, each as `format_item` may return it for an item
    /// that stands in an index of its own.
    pub open spec fn renders_as<G: Fn(SQLDialect, &IndexItem, bool) -> String>(
        &self,
        dialect: SQLDialect,
        format_item: &G,
        text: Seq<char>,
    ) -> bool {
        exists|items: Seq<Seq<char>>| #[trigger]
            items_format_as(self.columns@, dialect, false, format_item, items) && text
                == self.text(items)
    }

    /// The text of the statement in a dialect. Each item is written as
    /// `format_item` returns it for the dialect, the item and `false`.
    pub fn to_string<G: Fn(SQLDialect, &IndexItem, bool) -> String>(
        &self,
        dialect: SQLDialect,
        format_item: &G,
    ) -> (out: String)
        requires
            forall|i: int|
                0 <= i < self.columns.len() ==> call_requires(
                    *format_item,
                    (dialect, #[trigger] &self.columns@[i], false),
                ),
        ensures
            self.renders_as(dialect, format_item, out@),
    {
        let items = format_items(&self.columns, dialect, false, format_item);
        let mut out = String::from_str("CREATE");
        out.append(flag_str(self.unique, " UNIQUE"));
        out.append(" INDEX `");
        out.append(self.index.as_str());
        out.append("` ON `");
        out.append(self.table.as_str());
        out.append("`(");
        out.append(join(&items, ", ").as_str());
        out.append(")");
        assert(out@ == self.text(crate::text::views(items@)));
        out
    }

    /// Where the formatter of items is a function, the statement has one
    /// text only in a dialect: rendering it again gives the same text.
    pub proof fn has_one_text<G: Fn(SQLDialect, &IndexItem, bool) -> String>(
        &self,
        dialect: SQLDialect,
        format_item: &G,
        first: Seq<char>,
        second: Seq<char>,
    )
        requires
            is_item_formatter(format_item),
            self.renders_as(dialect, format_item, first),
            self.renders_as(dialect, format_item, second),
        ensures
            first == second,
    {
        let a = choose|items: Seq<Seq<char>>| #[trigger]
            items_format_as(self.columns@, dialect, false, format_item, items) && first
                == self.text(items);
        let b = choose|items: Seq<Seq<char>>| #[trigger]
            items_format_as(self.columns@, dialect, false, format_item, items) && second
                == self.text(items);
        items_have_one_text(self.columns@, dialect, false, format_item, a, b);
    }
}

} // verus!

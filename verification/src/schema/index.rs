//! The items of an index, as the index model hands them to a statement.

use vstd::prelude::*;
use crate::schema::dialect::SQLDialect;
use crate::text::views;

verus! {

/// The direction in which an index orders a column.
#[derive(Clone, Copy, Debug, PartialEq, Eq, Hash, Structural)]
pub enum Sort {
    Asc,
    Desc,
}

/// One column of an index: the column's name, its sort direction, and the
/// length of the indexed prefix where only a prefix is indexed.
///
/// A statement does not look into an item. It hands each item to the
/// formatter of the index model and places the text that comes back.
#[derive(Debug, PartialEq, Eq, Hash)]
pub struct IndexItem {
    pub field: String,
    pub sort: Sort,
    pub len: Option<usize>,
}

impl Clone for IndexItem {
    fn clone(&self) -> (copy: Self)
        ensures
            copy == *self,
    {
        IndexItem { field: self.field.clone(), sort: self.sort, len: self.len }
    }
}

/// `texts` are texts of the items in the dialect: as many, and each as
/// `format_item` may return it for the item. `in_primary_key` tells the
/// formatter that the item stands in a primary-key clause and not in an
/// index of its own.
pub open spec fn items_format_as<G: Fn(SQLDialect, &IndexItem, bool) -> String>(
    items: Seq<IndexItem>,
    dialect: SQLDialect,
    in_primary_key: bool,
    format_item: &G,
    texts: Seq<Seq<char>>,
) -> bool {
    exists|formatted: Seq<String>|
        {
            &&& formatted.len() == items.len()
            &&& forall|i: int|
                0 <= i < items.len() ==> call_ensures(
                    *format_item,
                    (dialect, &items[i], in_primary_key),
                    #[trigger] formatted[i],
                )
            &&& texts == views(formatted)
        }
}

/// `format_item` is a function: for one dialect, one item and one place
/// it returns one text only.
pub open spec fn is_item_formatter<G: Fn(SQLDialect, &IndexItem, bool) -> String>(
    format_item: &G,
) -> bool {
    forall|dialect: SQLDialect, item: IndexItem, in_primary_key: bool, first: String, second: String|
        #![trigger call_ensures(*format_item, (dialect, &item, in_primary_key), first), call_ensures(*format_item, (dialect, &item, in_primary_key), second)]
        call_ensures(*format_item, (dialect, &item, in_primary_key), first) && call_ensures(
            *format_item,
            (dialect, &item, in_primary_key),
            second,
        ) ==> first@ == second@
}

/// Where the formatter of items is a function, the items have one
/// sequence of texts only.
pub proof fn items_have_one_text<G: Fn(SQLDialect, &IndexItem, bool) -> String>(
    items: Seq<IndexItem>,
    dialect: SQLDialect,
    in_primary_key: bool,
    format_item: &G,
    first: Seq<Seq<char>>,
    second: Seq<Seq<char>>,
)
    requires
        is_item_formatter(format_item),
        items_format_as(items, dialect, in_primary_key, format_item, first),
        items_format_as(items, dialect, in_primary_key, format_item, second),
    ensures
        first == second,
{
    let a = choose|formatted: Seq<String>|
        {
            &&& formatted.len() == items.len()
            &&& forall|i: int|
                0 <= i < items.len() ==> call_ensures(
                    *format_item,
                    (dialect, &items[i], in_primary_key),
                    #[trigger] formatted[i],
                )
            &&& first == views(formatted)
        };
    let b = choose|formatted: Seq<String>|
        {
            &&& formatted.len() == items.len()
            &&& forall|i: int|
                0 <= i < items.len() ==> call_ensures(
                    *format_item,
                    (dialect, &items[i], in_primary_key),
                    #[trigger] formatted[i],
                )
            &&& second == views(formatted)
        };
    assert forall|i: int| 0 <= i < items.len() implies a[i]@ == b[i]@ by {
        assert(call_ensures(*format_item, (dialect, &items[i], in_primary_key), a[i]));
        assert(call_ensures(*format_item, (dialect, &items[i], in_primary_key), b[i]));
    }
    assert(views(a) =~= views(b));
}

/// Formats each item, in order.
pub fn format_items<G: Fn(SQLDialect, &IndexItem, bool) -> String>(
    items: &Vec<IndexItem>,
    dialect: SQLDialect,
    in_primary_key: bool,
    format_item: &G,
) -> (formatted: Vec<String>)
    requires
        forall|i: int|
            0 <= i < items.len() ==> call_requires(
                *format_item,
                (dialect, #[trigger] &items@[i], in_primary_key),
            ),
    ensures
        items_format_as(items@, dialect, in_primary_key, format_item, views(formatted@)),
{
    let mut formatted: Vec<String> = Vec::new();
    let mut i: usize = 0;
    while i < items.len()
        invariant
            i <= items.len(),
            formatted.len() == i,
            forall|k: int|
                0 <= k < items.len() ==> call_requires(
                    *format_item,
                    (dialect, #[trigger] &items@[k], in_primary_key),
                ),
            forall|k: int|
                0 <= k < i ==> call_ensures(
                    *format_item,
                    (dialect, &items@[k], in_primary_key),
                    #[trigger] formatted@[k],
                ),
        decreases items.len() - i,
    {
        formatted.push(format_item(dialect, &items[i], in_primary_key));
        i += 1;
    }
    formatted
}

} // verus!

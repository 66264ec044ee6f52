//! A menu: a title and an ordered list of items. Mutable by appending;
//! converted to a native menu on demand, never cached.

use vstd::prelude::*;

use crate::item::MenuItem;

verus! {

/// A menu with a title and its items in the order they will appear
/// natively.
#[derive(Debug)]
pub struct Menu {
    pub title: String,
    pub items: Vec<MenuItem>,
}

impl Menu {
    /// A menu titled `title` holding `items` in the given order.
    pub fn new(title: &str, items: Vec<MenuItem>) -> (r: Self)
        ensures
            r.title@ == title@,
            r.items == items,
    {
        Self { title: title.to_owned(), items }
    }

    /// Appends one item at the end of the menu.
    pub fn add_item(&mut self, item: MenuItem)
        ensures
            final(self).title == old(self).title,
            final(self).items@ == old(self).items@.push(item),
    {
        self.items.push(item);
    }

    /// Appends a batch of items at the end of the menu, keeping their order.
    pub fn append_items(&mut self, items: Vec<MenuItem>)
        ensures
            final(self).title == old(self).title,
            final(self).items@ == old(self).items@ + items@,
    {
        let mut rest = items;
        self.items.append(&mut rest);
    }
}

/// The items that repeated single appends produce: `prior` with each element
/// of `items` pushed at the end, one at a time, in order.
pub open spec fn spec_added_one_by_one(prior: Seq<MenuItem>, items: Seq<MenuItem>) -> Seq<MenuItem>
    decreases items.len(),
{
    if items.len() == 0 {
        prior
    } else {
        spec_added_one_by_one(prior, items.drop_last()).push(items.last())
    }
}

/// Appending a batch of items in one call leaves the menu exactly as adding
/// the same items one at a time, in the same order, would.
pub proof fn lemma_append_items_is_repeated_add(prior: Seq<MenuItem>, items: Seq<MenuItem>)
    ensures
        prior + items == spec_added_one_by_one(prior, items),
    decreases items.len(),
{
    if items.len() == 0 {
        assert(prior + items =~= prior);
    } else {
        lemma_append_items_is_repeated_add(prior, items.drop_last());
        assert(prior + items =~= (prior + items.drop_last()).push(items.last()));
    }
}

} // verus!

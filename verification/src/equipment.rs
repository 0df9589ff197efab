//! A list of equipment (sensors or lenses) with one selected entry: never
//! empty, the selection always inside the list.
use vstd::prelude::*;

verus! {

/// A non-empty list of items with a selected position inside it.
pub struct Equipment<T> {
    items: Vec<T>,
    selected: usize,
}

/// A list and a selection that an `Equipment` can hold.
pub open spec fn valid_state<T>(items: Seq<T>, selected: int) -> bool {
    items.len() >= 1 && 0 <= selected < items.len()
}

/// The list and selection after removing position `i`: nothing happens to a
/// one-item list or a position outside the list; otherwise the item goes and
/// the selection falls back to the first item where it no longer fits.
pub open spec fn removed<T>(items: Seq<T>, selected: int, i: int) -> (Seq<T>, int) {
    if items.len() > 1 && 0 <= i < items.len() {
        let rest = items.remove(i);
        (rest, if selected >= rest.len() {
            0
        } else {
            selected
        })
    } else {
        (items, selected)
    }
}

impl<T> Equipment<T> {
    /// The list is non-empty and the selection inside it.
    pub open spec fn wf(self) -> bool {
        valid_state(self.items(), self.selection())
    }

    /// The items, in order.
    pub closed spec fn items(self) -> Seq<T> {
        self.items@
    }

    /// The selected position.
    pub closed spec fn selection(self) -> int {
        self.selected as int
    }

    /// A list of one item, selected.
    pub fn new(first: T) -> (r: Self)
        ensures
            r.wf(),
            r.items() == seq![first],
            r.selection() == 0,
    {
        let mut items = Vec::new();
        items.push(first);
        assert(items@ =~= seq![first]);
        Equipment { items, selected: 0 }
    }

    /// The list `items` with `selected` selected, where that is a valid state.
    pub fn from_parts(items: Vec<T>, selected: usize) -> (r: Option<Self>)
        ensures
            r is Some <==> valid_state(items@, selected as int),
            r matches Some(e) ==> e.wf() && e.items() == items@ && e.selection() == selected,
    {
        if items.len() >= 1 && selected < items.len() {
            Some(Equipment { items, selected })
        } else {
            None
        }
    }

    /// The items and the selected position.
    pub fn into_parts(self) -> (r: (Vec<T>, usize))
        ensures
            r.0@ == self.items(),
            r.1 == self.selection(),
    {
        (self.items, self.selected)
    }

    /// The items, in order.
    pub fn as_vec(&self) -> (r: &Vec<T>)
        ensures
            r@ == self.items(),
    {
        &self.items
    }

    /// The number of items.
    pub fn len(&self) -> (r: usize)
        requires
            self.wf(),
        ensures
            r == self.items().len(),
            r >= 1,
    {
        self.items.len()
    }

    /// The selected position.
    pub fn selected_index(&self) -> (r: usize)
        requires
            self.wf(),
        ensures
            r == self.selection(),
            r < self.items().len(),
    {
        self.selected
    }

    /// The selected item.
    pub fn selected_item(&self) -> (r: &T)
        requires
            self.wf(),
        ensures
            *r == self.items()[self.selection()],
    {
        &self.items[self.selected]
    }

    /// The item at position `i`.
    pub fn get(&self, i: usize) -> (r: &T)
        requires
            i < self.items().len(),
        ensures
            *r == self.items()[i as int],
    {
        &self.items[i]
    }

    /// Selects position `i`, where it is inside the list.
    pub fn select(&mut self, i: usize) -> (done: bool)
        requires
            old(self).wf(),
        ensures
            final(self).wf(),
            done == (i < old(self).items().len()),
            final(self).items() == old(self).items(),
            final(self).selection() == (if done {
                i as int
            } else {
                old(self).selection()
            }),
    {
        if i < self.items.len() {
            self.selected = i;
            true
        } else {
            false
        }
    }

    /// Appends an item; the selection stays.
    pub fn push(&mut self, item: T)
        requires
            old(self).wf(),
        ensures
            final(self).wf(),
            final(self).items() == old(self).items().push(item),
            final(self).selection() == old(self).selection(),
    {
        self.items.push(item);
    }

    /// Replaces the item at position `i`, where it is inside the list.
    pub fn set(&mut self, i: usize, item: T) -> (done: bool)
        requires
            old(self).wf(),
        ensures
            final(self).wf(),
            done == (i < old(self).items().len()),
            final(self).items() == (if done {
                old(self).items().update(i as int, item)
            } else {
                old(self).items()
            }),
            final(self).selection() == old(self).selection(),
    {
        if i < self.items.len() {
            self.items.set(i, item);
            true
        } else {
            false
        }
    }

    /// Removes the item at position `i` unless it is the only one (or `i` is
    /// outside the list); the selection goes back to the first item when it
    /// falls past the end.
    pub fn remove(&mut self, i: usize) -> (done: bool)
        requires
            old(self).wf(),
        ensures
            final(self).wf(),
            done == (old(self).items().len() > 1 && i < old(self).items().len()),
            (final(self).items(), final(self).selection()) == removed(
                old(self).items(),
                old(self).selection(),
                i as int,
            ),
    {
        if self.items.len() > 1 && i < self.items.len() {
            self.items.remove(i);
            if self.selected >= self.items.len() {
                self.selected = 0;
            }
            true
        } else {
            false
        }
    }
}

/// Removing an item keeps a valid state: the list stays non-empty and the
/// selection inside it.
pub proof fn law_remove_keeps_valid<T>(items: Seq<T>, selected: int, i: int)
    requires
        valid_state(items, selected),
    ensures
        valid_state(removed(items, selected, i).0, removed(items, selected, i).1),
{
}

/// Appending an item and then removing the last one gives back the list and
/// the selection as they were.
pub proof fn law_push_then_remove_last<T>(items: Seq<T>, selected: int, item: T)
    requires
        valid_state(items, selected),
    ensures
        removed(items.push(item), selected, items.len() as int) == (items, selected),
{
    assert(items.push(item).remove(items.len() as int) =~= items);
}

/// Removing position `i` of a list of two or more items takes out exactly
/// that item: the items before it stay where they were, those after it move
/// up by one; the selection stays unless it now falls past the end, where it
/// goes back to the first item.
pub proof fn law_remove_takes_out_position<T>(items: Seq<T>, selected: int, i: int)
    requires
        valid_state(items, selected),
        items.len() >= 2,
        0 <= i < items.len(),
    ensures
        removed(items, selected, i).0.len() == items.len() - 1,
        forall|k: int| 0 <= k < i ==> #[trigger] removed(items, selected, i).0[k] == items[k],
        forall|k: int|
            i <= k < items.len() - 1 ==> #[trigger] removed(items, selected, i).0[k] == items[k + 1],
        removed(items, selected, i).1 == (if selected < items.len() - 1 {
            selected
        } else {
            0
        }),
{
}

/// Removing an item after the selected one leaves the same item selected.
pub proof fn law_remove_after_selection<T>(items: Seq<T>, selected: int, i: int)
    requires
        valid_state(items, selected),
        selected < i < items.len(),
    ensures
        removed(items, selected, i).0[removed(items, selected, i).1] == items[selected],
{
}

} // verus!

//! An ordered list with an optional selected index.

use vstd::prelude::*;

verus! {

/// The selection after moving one step forward in a list of `len` items:
/// unchanged when the list is empty, the first item when nothing was
/// selected, otherwise one further, stopping at the last item.
pub open spec fn next_index(selected: Option<usize>, len: usize) -> Option<usize> {
    if len == 0 {
        selected
    } else {
        match selected {
            None => Some(0usize),
            Some(i) => if i + 1 < len {
                Some((i + 1) as usize)
            } else {
                Some((len - 1) as usize)
            },
        }
    }
}

/// The selection after moving one step backward in a list of `len` items:
/// unchanged when the list is empty, the first item when nothing was
/// selected, otherwise one back, stopping at the first item.
pub open spec fn previous_index(selected: Option<usize>, len: usize) -> Option<usize> {
    if len == 0 {
        selected
    } else {
        match selected {
            None => Some(0usize),
            Some(i) => if i == 0 {
                Some(0usize)
            } else {
                Some((i - 1) as usize)
            },
        }
    }
}

/// A selection is valid for a list of `len` items when it is unset or
/// points at one of the items.
pub open spec fn selection_valid(selected: Option<usize>, len: int) -> bool {
    match selected {
        None => true,
        Some(i) => i < len,
    }
}

/// The selection that remains after the item at `removed` left the list:
/// unset if that item was selected, otherwise the same item as before.
pub open spec fn index_after_removal(selected: Option<usize>, removed: int) -> Option<usize> {
    match selected {
        None => None,
        Some(i) => if i == removed {
            None
        } else if i > removed {
            Some((i - 1) as usize)
        } else {
            Some(i)
        },
    }
}

/// An ordered list of items together with the index of the selected one.
pub struct ScrollableCollection<T> {
    items: Vec<T>,
    selected: Option<usize>,
}

impl<T> ScrollableCollection<T> {
    /// The items, in order.
    pub closed spec fn view(&self) -> Seq<T> {
        self.items@
    }

    /// The selected index, if any.
    pub closed spec fn selection(&self) -> Option<usize> {
        self.selected
    }

    /// The selection, if set, points at an item.
    pub open spec fn wf(&self) -> bool {
        selection_valid(self.selection(), self@.len() as int)
    }

    /// An empty list with nothing selected.
    pub fn new() -> (r: Self)
        ensures
            r.wf(),
            r@ == Seq::<T>::empty(),
            r.selection() == None::<usize>,
    {
        ScrollableCollection { items: Vec::new(), selected: None }
    }

    /// A list of the given items with nothing selected.
    pub fn with_items(items: Vec<T>) -> (r: Self)
        ensures
            r.wf(),
            r@ == items@,
            r.selection() == None::<usize>,
    {
        ScrollableCollection { items, selected: None }
    }

    /// The number of items.
    pub fn len(&self) -> (r: usize)
        ensures
            r == self@.len(),
    {
        self.items.len()
    }

    /// The selected index, which always points at an item.
    pub fn selected(&self) -> (r: Option<usize>)
        ensures
            r == self.selection(),
    {
        self.selected
    }

    /// Moves the selection one step forward.
    pub fn next(&mut self)
        requires
            old(self).wf(),
        ensures
            final(self).wf(),
            final(self)@ == old(self)@,
            final(self).selection() == next_index(old(self).selection(), old(self)@.len() as usize),
    {
        let len: usize = self.items.len();
        if len == 0 {
            return ;
        }
        let i: usize = match self.selected {
            Some(i) => if i >= len - 1 {
                len - 1
            } else {
                i + 1
            },
            None => 0,
        };
        self.selected = Some(i);
    }

    /// Moves the selection one step backward.
    pub fn previous(&mut self)
        requires
            old(self).wf(),
        ensures
            final(self).wf(),
            final(self)@ == old(self)@,
            final(self).selection() == previous_index(
                old(self).selection(),
                old(self)@.len() as usize,
            ),
    {
        if self.items.len() == 0 {
            return ;
        }
        let i: usize = match self.selected {
            Some(i) => if i == 0 {
                0
            } else {
                i - 1
            },
            None => 0,
        };
        self.selected = Some(i);
    }

    /// Sets the selection: `None` deselects, an index that points at an item
    /// selects it, and an index past the end leaves nothing selected.
    pub fn select(&mut self, index: Option<usize>)
        ensures
            final(self).wf(),
            final(self)@ == old(self)@,
            final(self).selection() == if selection_valid(index, old(self)@.len() as int) {
                index
            } else {
                None
            },
    {
        self.selected = match index {
            Some(i) => if i < self.items.len() {
                Some(i)
            } else {
                None
            },
            None => None,
        };
    }

    /// The selected item, if any.
    pub fn get_selected(&self) -> (r: Option<&T>)
        requires
            self.wf(),
        ensures
            r == match self.selection() {
                Some(i) => Some(&self@[i as int]),
                None => None,
            },
    {
        match self.selected {
            Some(i) => Some(&self.items[i]),
            None => None,
        }
    }

    /// The item at `index`, if there is one.
    pub fn get(&self, index: usize) -> (r: Option<&T>)
        ensures
            r == if index < self@.len() {
                Some(&self@[index as int])
            } else {
                None
            },
    {
        if index < self.items.len() {
            Some(&self.items[index])
        } else {
            None
        }
    }

    /// Appends an item; the selection stays where it was.
    pub fn push(&mut self, item: T)
        requires
            old(self).wf(),
        ensures
            final(self).wf(),
            final(self)@ == old(self)@.push(item),
            final(self).selection() == old(self).selection(),
    {
        self.items.push(item);
    }

    /// Removes and returns the item at `index`, if there is one. The
    /// selection is dropped if it pointed at that item, and otherwise keeps
    /// pointing at the same item as before.
    pub fn remove(&mut self, index: usize) -> (r: Option<T>)
        requires
            old(self).wf(),
        ensures
            final(self).wf(),
            index < old(self)@.len() ==> r == Some(old(self)@[index as int]) && final(self)@
                == old(self)@.remove(index as int) && final(self).selection()
                == index_after_removal(old(self).selection(), index as int),
            index >= old(self)@.len() ==> r.is_none() && final(self)@ == old(self)@
                && final(self).selection() == old(self).selection(),
    {
        if index >= self.items.len() {
            return None;
        }
        self.selected = match self.selected {
            Some(i) => if i == index {
                None
            } else if i > index {
                Some(i - 1)
            } else {
                Some(i)
            },
            None => None,
        };
        let item = self.items.remove(index);
        Some(item)
    }

    /// Mutable access to the item at `index`, if there is one. Whatever the
    /// caller writes through the reference replaces that item; the other
    /// items and the selection stay as they were.
    pub fn get_mut(&mut self, index: usize) -> (r: Option<&mut T>)
        ensures
            final(self).selection() == old(self).selection(),
            match r {
                Some(item) => index < old(self)@.len() && *item == old(self)@[index as int]
                    && final(self)@ == old(self)@.update(index as int, *final(item)),
                None => index >= old(self)@.len() && final(self)@ == old(self)@,
            },
    {
        if index < self.items.len() {
            Some(&mut self.items[index])
        } else {
            None
        }
    }

    /// Mutable access to the selected item, if any.
    pub fn get_selected_mut(&mut self) -> (r: Option<&mut T>)
        requires
            old(self).wf(),
        ensures
            final(self).selection() == old(self).selection(),
            match (r, old(self).selection()) {
                (Some(item), Some(i)) => *item == old(self)@[i as int] && final(self)@ == old(
                    self,
                )@.update(i as int, *final(item)),
                (None, None) => final(self)@ == old(self)@,
                _ => false,
            },
    {
        match self.selected {
            Some(i) => Some(&mut self.items[i]),
            None => None,
        }
    }
}

/// The selection after `steps` forward moves in a list of `len` items.
pub open spec fn next_index_repeated(
    selected: Option<usize>,
    len: usize,
    steps: nat,
) -> Option<usize>
    decreases steps,
{
    if steps == 0 {
        selected
    } else {
        next_index(next_index_repeated(selected, len, (steps - 1) as nat), len)
    }
}

/// In a list that is not empty, `steps` forward moves from an unset
/// selection select the item at `steps - 1`, or the last item once `steps`
/// has reached the length of the list.
pub proof fn lemma_next_from_unset(len: usize, steps: nat)
    requires
        len > 0,
        steps > 0,
    ensures
        next_index_repeated(None, len, steps) == Some(
            if steps <= len {
                (steps - 1) as usize
            } else {
                (len - 1) as usize
            },
        ),
    decreases steps,
{
    if steps > 1 {
        lemma_next_from_unset(len, (steps - 1) as nat);
    } else {
        assert(next_index_repeated(None, len, 0) == None::<usize>);
    }
}

/// As many forward moves as the list has items, starting with nothing
/// selected, end on the last item, and any further forward move stays there.
pub proof fn lemma_next_reaches_last_and_stays(len: usize, extra: nat)
    requires
        len > 0,
    ensures
        next_index_repeated(None, len, len as nat) == Some((len - 1) as usize),
        next_index_repeated(None, len, len as nat + extra) == Some((len - 1) as usize),
        next_index(Some((len - 1) as usize), len) == Some((len - 1) as usize),
{
    lemma_next_from_unset(len, len as nat);
    lemma_next_from_unset(len, len as nat + extra);
}

} // verus!

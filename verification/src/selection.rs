//! Which item of an on-screen list is selected, and where the list's view
//! starts: the state that a list widget keeps between frames.

use vstd::prelude::*;

verus! {

/// The selection state of a list: the index of the first item shown and the
/// selected item, if any. Until the list is drawn the number of its items is
/// not known, so a selection may lie past its end; drawing corrects it.
pub struct ListSelection {
    pub offset: usize,
    pub selected: Option<usize>,
}

/// The index that selecting the next item selects: one past the selected
/// one (staying at the largest index), or the first.
pub open spec fn next_index(selected: Option<usize>) -> usize {
    match selected {
        Some(i) => if i == usize::MAX {
            i
        } else {
            (i + 1) as usize
        },
        None => 0,
    }
}

/// The index that selecting the previous item selects: one before the
/// selected one (staying at the first), or the largest index.
pub open spec fn previous_index(selected: Option<usize>) -> usize {
    match selected {
        Some(i) => if i == 0 {
            0
        } else {
            (i - 1) as usize
        },
        None => usize::MAX,
    }
}

impl ListSelection {
    /// No item selected, the view at the top.
    pub fn new() -> (s: Self)
        ensures
            s.offset == 0,
            s.selected is None,
    {
        ListSelection { offset: 0, selected: None }
    }

    /// The index of the selected item.
    pub fn selected(&self) -> (index: Option<usize>)
        ensures
            index == self.selected,
    {
        self.selected
    }

    /// Selects an item, or none; selecting none also moves the view back to
    /// the top.
    pub fn select(&mut self, index: Option<usize>)
        ensures
            final(self).selected == index,
            final(self).offset == (if index is None { 0 } else { old(self).offset }),
    {
        self.selected = index;
        if index.is_none() {
            self.offset = 0;
        }
    }

    /// Selects the next item, or the first one if none is selected.
    pub fn select_next(&mut self)
        ensures
            final(self).selected == Some(next_index(old(self).selected)),
            final(self).offset == old(self).offset,
    {
        let next = match self.selected {
            Some(i) => i.saturating_add(1),
            None => 0,
        };
        self.select(Some(next));
    }

    /// Selects the previous item, or the last one if none is selected (the
    /// largest index, which drawing brings back to the last item).
    pub fn select_previous(&mut self)
        ensures
            final(self).selected == Some(previous_index(old(self).selected)),
            final(self).offset == old(self).offset,
    {
        let previous = match self.selected {
            Some(i) => i.saturating_sub(1),
            None => usize::MAX,
        };
        self.select(Some(previous));
    }
}

/// Moving the selection: the next item is one past the selected one (the
/// largest index stays where it is), the previous one is one before it (the
/// first stays where it is); with nothing selected, next selects the first
/// item and previous the largest index. Each undoes the other away from the
/// ends.
pub proof fn lemma_selection_moves_by_one(i: usize)
    ensures
        i < usize::MAX ==> next_index(Some(i)) == i + 1,
        next_index(Some(usize::MAX)) == usize::MAX,
        i >= 1 ==> previous_index(Some(i)) == i - 1,
        previous_index(Some(0)) == 0,
        next_index(None) == 0,
        previous_index(None) == usize::MAX,
        i >= 1 ==> next_index(Some(previous_index(Some(i)))) == i,
        i < usize::MAX ==> previous_index(Some(next_index(Some(i)))) == i,
{
}

} // verus!

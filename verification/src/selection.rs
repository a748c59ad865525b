//! Selection and scroll offset of a list or a table.

use vstd::prelude::*;

verus! {

/// Which row of a list or table is selected, and from which row it is
/// drawn. A fresh selection selects nothing and starts at the top.
#[derive(Debug, PartialEq, Eq, Structural, Clone, Copy)]
pub struct Selection {
    pub offset: usize,
    pub selected: Option<usize>,
}

impl Selection {
    /// The selection after selecting `index`: clearing it also scrolls
    /// back to the top.
    pub open spec fn with_selected(self, index: Option<usize>) -> Selection {
        Selection { offset: if index is None { 0 } else { self.offset }, selected: index }
    }

    /// The selected row, or `d` when none is.
    pub open spec fn selected_or(self, d: usize) -> usize {
        match self.selected {
            Some(i) => i,
            None => d,
        }
    }

    /// A selection that selects `index`, drawn from the top.
    pub open spec fn at(index: usize) -> Selection {
        Selection { offset: 0, selected: Some(index) }
    }

    /// Nothing selected, drawn from the top.
    pub fn new() -> (s: Self)
        ensures
            s.offset == 0,
            s.selected is None,
    {
        Selection { offset: 0, selected: None }
    }

    /// The selected row.
    pub fn selected(&self) -> (r: Option<usize>)
        ensures
            r == self.selected,
    {
        self.selected
    }

    /// Selects `index`; clearing the selection scrolls back to the top.
    pub fn select(&mut self, index: Option<usize>)
        ensures
            *final(self) == old(self).with_selected(index),
    {
        self.selected = index;
        if index.is_none() {
            self.offset = 0;
        }
    }
}

impl Default for Selection {
    fn default() -> (s: Self)
        ensures
            s.offset == 0,
            s.selected is None,
    {
        Selection::new()
    }
}

/// `a - b`, or 0 where that would be negative.
pub open spec fn sat_sub(a: int, b: int) -> int {
    if a >= b { a - b } else { 0 }
}

/// The smaller of two integers.
pub open spec fn min_int(a: int, b: int) -> int {
    if a <= b { a } else { b }
}

} // verus!

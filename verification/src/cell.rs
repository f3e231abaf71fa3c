//! The shared cell itself: a value and the count of its handles.

use vstd::prelude::*;
use crate::model::CellState;

verus! {

/// A value together with the number of handles that share it.
///
/// The count is kept as the number of handles beyond the first, so that a
/// cell always has at least one.
pub struct Counted<T> {
    value: T,
    others: usize,
}

impl<T> View for Counted<T> {
    type V = CellState<T>;

    closed spec fn view(&self) -> CellState<T> {
        CellState { value: self.value, count: (self.others + 1) as nat }
    }
}

impl<T> Counted<T> {
    /// A cell for `value` with one handle.
    pub fn new(value: T) -> (cell: Self)
        ensures
            cell@ == (CellState { value, count: 1 }),
    {
        Counted { value, others: 0 }
    }

    /// A cell always has a handle, and the count fits the machine word.
    pub proof fn lemma_count_bounds(&self)
        ensures
            1 <= self@.count <= usize::MAX + 1,
    {
    }

    /// The number of handles, saturated at the largest `usize`.
    pub fn strong_count(&self) -> (n: usize)
        ensures
            n == if self@.count <= usize::MAX { self@.count } else { usize::MAX as nat },
    {
        self.others.saturating_add(1)
    }

    /// No other handle is left.
    pub fn is_unique(&self) -> (b: bool)
        ensures
            b == (self@.count == 1),
    {
        self.others == 0
    }

    /// The shared value.
    pub fn get(&self) -> (value: &T)
        ensures
            *value == self@.value,
    {
        &self.value
    }

    /// The shared value, to write to. The count stays.
    pub fn get_mut(&mut self) -> (value: &mut T)
        ensures
            *value == old(self)@.value,
            final(self)@ == (CellState { value: *final(value), count: old(self)@.count }),
    {
        &mut self.value
    }

    /// Counts one more handle.
    pub fn retain(&mut self)
        requires
            old(self)@.count <= usize::MAX,
        ensures
            final(self)@ == (CellState { value: old(self)@.value, count: old(self)@.count + 1 }),
    {
        self.others = self.others + 1;
    }

    /// Counts one handle less. The last handle cannot be given up here: that
    /// frees the cell, which only the arena can do.
    pub fn release(&mut self)
        requires
            old(self)@.count > 1,
        ensures
            final(self)@ == (CellState {
                value: old(self)@.value,
                count: (old(self)@.count - 1) as nat,
            }),
    {
        self.others = self.others - 1;
    }

    /// Gives the value back, whatever the count.
    pub fn into_inner(self) -> (value: T)
        ensures
            value == self@.value,
    {
        self.value
    }
}

} // verus!

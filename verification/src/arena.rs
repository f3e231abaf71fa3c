//! The store that owns every shared cell.

use vstd::prelude::*;
use crate::cell::Counted;
use crate::model::{
    CellState, cloned, constructed, count_of, destroyed, freed_by, held, live, value_of, written,
};

verus! {

/// The cells that handles share, each allocated on its own and kept in a
/// slot of its own.
///
/// A slot is taken when a cell is made and never given to another cell, so
/// that a slot's index names one cell for good. A freed slot keeps no more
/// than an empty pointer.
pub struct Arena<T> {
    slots: Vec<Option<Box<Counted<T>>>>,
}

/// What a slot stands for in the model.
pub open spec fn slot_state<T>(slot: Option<Box<Counted<T>>>) -> Option<CellState<T>> {
    match slot {
        Some(cell) => Some(cell@),
        None => None,
    }
}

impl<T> View for Arena<T> {
    type V = Seq<Option<CellState<T>>>;

    closed spec fn view(&self) -> Seq<Option<CellState<T>>> {
        Seq::new(self.slots@.len(), |i: int| slot_state(self.slots@[i]))
    }
}

impl<T> Arena<T> {
    /// An arena without cells.
    pub fn new() -> (arena: Self)
        ensures
            arena@ == Seq::<Option<CellState<T>>>::empty(),
    {
        let arena = Arena { slots: Vec::new() };
        assert(arena@ =~= Seq::<Option<CellState<T>>>::empty());
        arena
    }

    /// A live cell has at least one handle, and no more than the machine can
    /// count.
    pub proof fn lemma_live_counts(&self, id: int)
        ensures
            live(self@, id) <==> held(self@, id),
            count_of(self@, id) <= usize::MAX + 1,
    {
        if live(self@, id) {
            self.slots@[id]->Some_0.lemma_count_bounds();
        }
    }

    /// The number of slots, free ones included.
    pub fn len(&self) -> (n: usize)
        ensures
            n == self@.len(),
    {
        self.slots.len()
    }

    /// Whether the cell `id` exists and has not been freed.
    pub fn is_live(&self, id: usize) -> (b: bool)
        ensures
            b == live(self@, id as int),
    {
        id < self.slots.len() && self.slots[id].is_some()
    }

    /// The number of handles of the cell `id`, saturated at the largest
    /// `usize`; zero where the cell is not live.
    pub fn strong_count(&self, id: usize) -> (n: usize)
        ensures
            n == if count_of(self@, id as int) <= usize::MAX {
                count_of(self@, id as int)
            } else {
                usize::MAX as nat
            },
    {
        if id < self.slots.len() {
            match &self.slots[id] {
                Some(cell) => cell.strong_count(),
                None => 0,
            }
        } else {
            0
        }
    }

    /// Makes a cell for `value`, with one handle, in the next slot.
    pub fn insert(&mut self, value: T) -> (id: usize)
        ensures
            id == old(self)@.len(),
            final(self)@ == constructed(old(self)@, value),
    {
        let id = self.slots.len();
        self.slots.push(Some(Box::new(Counted::new(value))));
        assert(self@ =~= constructed(old(self)@, value));
        id
    }

    /// Counts one more handle of the cell `id`.
    pub fn retain(&mut self, id: usize)
        requires
            live(old(self)@, id as int),
            count_of(old(self)@, id as int) <= usize::MAX,
        ensures
            final(self)@ == cloned(old(self)@, id as int),
    {
        let cell = self.cell_mut(id);
        cell.retain();
    }

    /// Gives up one handle of the cell `id`. With the last one the cell is
    /// freed and its value handed back.
    pub fn release(&mut self, id: usize) -> (freed: Option<T>)
        requires
            live(old(self)@, id as int),
        ensures
            final(self)@ == destroyed(old(self)@, id as int),
            freed == freed_by(old(self)@, id as int),
    {
        if self.cell(id).is_unique() {
            let slot = &mut self.slots[id];
            let taken = slot.take();
            assert(self@ =~= destroyed(old(self)@, id as int));
            let cell: Counted<T> = *taken.unwrap();
            Some(cell.into_inner())
        } else {
            let cell = self.cell_mut(id);
            proof {
                cell.lemma_count_bounds();
            }
            cell.release();
            None
        }
    }

    /// The value of the cell `id`.
    pub fn get(&self, id: usize) -> (value: &T)
        requires
            live(self@, id as int),
        ensures
            *value == value_of(self@, id as int),
    {
        self.cell(id).get()
    }

    /// The value of the cell `id`, to write to. What is written is what every
    /// handle of the cell reads from then on; nothing else changes.
    pub fn get_mut(&mut self, id: usize) -> (value: &mut T)
        requires
            live(old(self)@, id as int),
        ensures
            *value == value_of(old(self)@, id as int),
            final(self)@ == written(old(self)@, id as int, *final(value)),
    {
        let cell = self.cell_mut(id);
        cell.get_mut()
    }

    /// The cell `id` itself: the value with its count.
    pub fn cell(&self, id: usize) -> (cell: &Counted<T>)
        requires
            live(self@, id as int),
        ensures
            Some(cell@) == self@[id as int],
    {
        let cell: &Box<Counted<T>> = self.slots[id].as_ref().unwrap();
        &**cell
    }

    /// The cell `id` itself, to work on. The slot holds what the cell has
    /// become; nothing else changes.
    pub fn cell_mut(&mut self, id: usize) -> (cell: &mut Counted<T>)
        requires
            live(old(self)@, id as int),
        ensures
            Some(cell@) == old(self)@[id as int],
            final(self)@ == old(self)@.update(id as int, Some(final(cell)@)),
    {
        let slot = &mut self.slots[id];
        let cell: &mut Box<Counted<T>> = slot.as_mut().unwrap();
        &mut **cell
    }
}

} // verus!

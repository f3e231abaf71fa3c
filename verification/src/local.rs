//! Handles for one thread.

use vstd::prelude::*;
use core::marker::PhantomData;
use std::rc::Rc;
use crate::arena::Arena;
use crate::cell::Counted;
use crate::model::{cloned, constructed, count_of, destroyed, freed_by, live, value_of, written};

verus! {

/// A handle of a shared cell, for use on one thread.
///
/// The handle cannot be sent to another thread. Any number of handles may
/// share a cell, and each may read and write its value.
///
/// A handle belongs to the arena it was made in, and every operation takes
/// that arena. A handle that is dropped without `destroy` keeps its share of
/// the count, and the cell stays until the arena goes.
pub struct RcMut<T> {
    slot: usize,
    domain: PhantomData<Rc<T>>,
}

impl<T> RcMut<T> {
    /// The slot of the cell that this handle shares.
    pub closed spec fn id(&self) -> int {
        self.slot as int
    }

    /// Moves `val` into a new cell of `arena` and returns its first handle.
    /// The cell takes a slot that no earlier cell has had.
    pub fn new(val: T, arena: &mut Arena<T>) -> (handle: Self)
        ensures
            handle.id() == old(arena)@.len(),
            final(arena)@ == constructed(old(arena)@, val),
    {
        let slot = arena.insert(val);
        RcMut { slot, domain: PhantomData }
    }

    /// Another handle of the same cell. The value is not copied; the cell
    /// counts one more.
    ///
    /// The caller sees to it that the cell is live and that its count has
    /// room for one more.
    pub fn clone(&self, arena: &mut Arena<T>) -> (twin: Self)
        requires
            live(old(arena)@, self.id()),
            count_of(old(arena)@, self.id()) <= usize::MAX,
        ensures
            twin.id() == self.id(),
            final(arena)@ == cloned(old(arena)@, self.id()),
    {
        arena.retain(self.slot);
        RcMut { slot: self.slot, domain: PhantomData }
    }

    /// Gives the handle up. With the last handle the cell is freed and its
    /// value handed back; before, nothing is handed back and the cell counts
    /// one less.
    ///
    /// The caller sees to it that the cell is live.
    pub fn destroy(self, arena: &mut Arena<T>) -> (freed: Option<T>)
        requires
            live(old(arena)@, self.id()),
        ensures
            final(arena)@ == destroyed(old(arena)@, self.id()),
            freed == freed_by(old(arena)@, self.id()),
    {
        arena.release(self.slot)
    }

    /// The slot of the cell, as a plain index into the arena.
    pub fn slot(&self) -> (slot: usize)
        ensures
            slot == self.id(),
    {
        self.slot
    }

    /// The cell itself, value and count, as the arena holds it.
    ///
    /// The caller sees to it that the cell is live.
    pub fn as_rc<'a>(&self, arena: &'a Arena<T>) -> (cell: &'a Counted<T>)
        requires
            live(arena@, self.id()),
        ensures
            Some(cell@) == arena@[self.id()],
    {
        arena.cell(self.slot)
    }

    /// The cell itself, to work on: what is done to it is done to the cell
    /// that every handle shares. Nothing else in the arena changes.
    ///
    /// The caller sees to it that the cell is live.
    pub fn as_rc_mut<'a>(&mut self, arena: &'a mut Arena<T>) -> (cell: &'a mut Counted<T>)
        requires
            live(old(arena)@, old(self).id()),
        ensures
            *final(self) == *old(self),
            Some(cell@) == old(arena)@[old(self).id()],
            final(arena)@ == old(arena)@.update(old(self).id(), Some(final(cell)@)),
    {
        arena.cell_mut(self.slot)
    }

    /// The shared value, to read.
    ///
    /// The caller sees to it that the cell is live.
    pub fn borrow<'a>(&self, arena: &'a Arena<T>) -> (value: &'a T)
        requires
            live(arena@, self.id()),
        ensures
            *value == value_of(arena@, self.id()),
    {
        arena.get(self.slot)
    }

    /// The shared value, to write. What is written is what every handle of
    /// the cell reads from then on. The count stays, and so does every other
    /// cell.
    ///
    /// The caller sees to it that the cell is live.
    pub fn borrow_mut<'a>(&mut self, arena: &'a mut Arena<T>) -> (value: &'a mut T)
        requires
            live(old(arena)@, old(self).id()),
        ensures
            *final(self) == *old(self),
            *value == value_of(old(arena)@, old(self).id()),
            final(arena)@ == written(old(arena)@, old(self).id(), *final(value)),
    {
        arena.get_mut(self.slot)
    }
}

} // verus!

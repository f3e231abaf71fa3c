use std::cell::Cell;
use std::rc::Rc;

use rcmut::{Arena, Counted, RcMut};

/// A value that counts how often it is torn down.
struct Probe {
    torn_down: Rc<Cell<u32>>,
    tag: u32,
}

impl Drop for Probe {
    fn drop(&mut self) {
        self.torn_down.set(self.torn_down.get() + 1);
    }
}

fn probe(counter: &Rc<Cell<u32>>, tag: u32) -> Probe {
    Probe { torn_down: Rc::clone(counter), tag }
}

#[test]
fn new_arena_is_empty() {
    let arena: Arena<u32> = Arena::new();
    assert_eq!(arena.len(), 0);
    assert!(!arena.is_live(0));
    assert_eq!(arena.strong_count(0), 0);
}

#[test]
fn construct_gives_one_handle_in_the_next_slot() {
    let mut arena = Arena::new();
    let a = RcMut::new(7u32, &mut arena);
    assert_eq!(a.slot(), 0);
    assert_eq!(arena.len(), 1);
    assert!(arena.is_live(0));
    assert_eq!(arena.strong_count(0), 1);
    assert_eq!(*a.borrow(&arena), 7);
    let b = RcMut::new(9u32, &mut arena);
    assert_eq!(b.slot(), 1);
    assert_eq!(arena.len(), 2);
    assert_eq!(arena.strong_count(1), 1);
    assert_eq!(*b.borrow(&arena), 9);
    assert_eq!(*a.borrow(&arena), 7);
}

#[test]
fn clone_shares_the_cell_and_counts_one_more() {
    let mut arena = Arena::new();
    let a = RcMut::new(String::from("shared"), &mut arena);
    let b = a.clone(&mut arena);
    let c = b.clone(&mut arena);
    assert_eq!(a.slot(), b.slot());
    assert_eq!(a.slot(), c.slot());
    assert_eq!(arena.len(), 1);
    assert_eq!(arena.strong_count(a.slot()), 3);
    assert!(std::ptr::eq(a.borrow(&arena), c.borrow(&arena)));
}

#[test]
fn clone_does_not_copy_or_tear_down_the_value() {
    let counter = Rc::new(Cell::new(0));
    let mut arena = Arena::new();
    let a = RcMut::new(probe(&counter, 1), &mut arena);
    let b = a.clone(&mut arena);
    assert_eq!(Rc::strong_count(&counter), 2);
    assert_eq!(counter.get(), 0);
    assert_eq!(b.borrow(&arena).tag, 1);
}

#[test]
fn storage_is_released_exactly_once_after_the_last_handle() {
    let counter = Rc::new(Cell::new(0));
    let mut arena = Arena::new();
    let a = RcMut::new(probe(&counter, 5), &mut arena);
    let b = a.clone(&mut arena);
    let c = a.clone(&mut arena);
    let d = c.clone(&mut arena);
    let slot = a.slot();
    assert_eq!(arena.strong_count(slot), 4);

    assert!(b.destroy(&mut arena).is_none());
    assert_eq!(counter.get(), 0);
    assert_eq!(arena.strong_count(slot), 3);
    assert!(a.destroy(&mut arena).is_none());
    assert_eq!(counter.get(), 0);
    assert!(d.destroy(&mut arena).is_none());
    assert_eq!(counter.get(), 0);
    assert_eq!(arena.strong_count(slot), 1);
    assert!(arena.is_live(slot));

    let freed = c.destroy(&mut arena);
    assert!(freed.is_some());
    assert_eq!(counter.get(), 0);
    assert_eq!(freed.as_ref().map(|p| p.tag), Some(5));
    drop(freed);
    assert_eq!(counter.get(), 1);
    assert!(!arena.is_live(slot));
    assert_eq!(arena.strong_count(slot), 0);

    drop(arena);
    assert_eq!(counter.get(), 1);
}

#[test]
fn interleaved_clones_and_destroys_release_once() {
    let counter = Rc::new(Cell::new(0));
    let mut arena = Arena::new();
    let first = RcMut::new(probe(&counter, 0), &mut arena);
    let slot = first.slot();
    let mut handles = vec![first];
    let mut released = 0;
    for round in 0..50usize {
        let twin = handles[round % handles.len()].clone(&mut arena);
        handles.push(twin);
        if round % 3 == 0 {
            let gone = handles.remove(0);
            if gone.destroy(&mut arena).is_some() {
                released += 1;
            }
        }
        assert_eq!(arena.strong_count(slot), handles.len());
    }
    assert_eq!(released, 0);
    assert_eq!(counter.get(), 0);
    let left = handles.len();
    for (i, handle) in handles.into_iter().enumerate() {
        let freed = handle.destroy(&mut arena);
        assert_eq!(freed.is_some(), i + 1 == left);
        if freed.is_some() {
            released += 1;
        }
    }
    assert_eq!(released, 1);
    assert_eq!(counter.get(), 1);
    assert!(!arena.is_live(slot));
}

#[test]
fn mutation_through_a_clone_is_seen_through_the_first_handle() {
    let mut arena = Arena::new();
    let a = RcMut::new(0i32, &mut arena);
    let mut b = a.clone(&mut arena);
    *b.borrow_mut(&mut arena) = 42;
    assert_eq!(*a.borrow(&arena), 42);
    assert_eq!(*b.borrow(&arena), 42);
    assert_eq!(arena.strong_count(a.slot()), 2);
}

#[test]
fn mutation_through_the_first_handle_is_seen_through_a_clone() {
    let mut arena = Arena::new();
    let mut a = RcMut::new(vec![1u8, 2], &mut arena);
    let mut b = a.clone(&mut arena);
    a.borrow_mut(&mut arena).push(3);
    assert_eq!(b.borrow(&arena), &vec![1u8, 2, 3]);
    b.borrow_mut(&mut arena).clear();
    assert!(a.borrow(&arena).is_empty());
}

#[test]
fn independent_handles_do_not_see_each_other() {
    let mut arena = Arena::new();
    let mut a = RcMut::new(10u64, &mut arena);
    let b = RcMut::new(10u64, &mut arena);
    assert_ne!(a.slot(), b.slot());
    *a.borrow_mut(&mut arena) = 11;
    assert_eq!(*a.borrow(&arena), 11);
    assert_eq!(*b.borrow(&arena), 10);
    let a2 = a.clone(&mut arena);
    assert_eq!(arena.strong_count(a.slot()), 2);
    assert_eq!(arena.strong_count(b.slot()), 1);
    assert_eq!(a2.destroy(&mut arena), None);
    assert_eq!(a.destroy(&mut arena), Some(11));
    assert!(arena.is_live(b.slot()));
    assert_eq!(*b.borrow(&arena), 10);
}

#[test]
fn handles_in_separate_arenas_are_independent() {
    let mut left = Arena::new();
    let mut right = Arena::new();
    let mut a = RcMut::new(1u8, &mut left);
    let b = RcMut::new(1u8, &mut right);
    *a.borrow_mut(&mut left) = 2;
    assert_eq!(*b.borrow(&right), 1);
    assert_eq!(*a.borrow(&left), 2);
}

#[test]
fn a_freed_slot_is_not_given_to_a_later_cell() {
    let mut arena = Arena::new();
    let a = RcMut::new(1u32, &mut arena);
    assert_eq!(a.destroy(&mut arena), Some(1));
    let b = RcMut::new(2u32, &mut arena);
    assert_eq!(b.slot(), 1);
    assert!(!arena.is_live(0));
    assert!(arena.is_live(1));
    assert_eq!(arena.len(), 2);
}

#[test]
fn construct_then_destroy_allocates_and_releases_once() {
    let counter = Rc::new(Cell::new(0));
    let mut arena = Arena::new();
    let a = RcMut::new(probe(&counter, 3), &mut arena);
    assert_eq!(arena.len(), 1);
    assert_eq!(Rc::strong_count(&counter), 2);
    let freed = a.destroy(&mut arena);
    assert_eq!(freed.as_ref().map(|p| p.tag), Some(3));
    assert_eq!(counter.get(), 0);
    drop(freed);
    assert_eq!(counter.get(), 1);
    assert_eq!(Rc::strong_count(&counter), 1);
    assert_eq!(arena.len(), 1);
    assert!(!arena.is_live(0));
    drop(arena);
    assert_eq!(counter.get(), 1);
}

#[test]
fn the_cell_shows_the_count_that_clone_keeps() {
    let mut arena = Arena::new();
    let a = RcMut::new(5u16, &mut arena);
    assert_eq!(a.as_rc(&arena).strong_count(), 1);
    assert!(a.as_rc(&arena).is_unique());
    let b = a.clone(&mut arena);
    assert_eq!(a.as_rc(&arena).strong_count(), 2);
    assert_eq!(b.as_rc(&arena).strong_count(), 2);
    assert!(!a.as_rc(&arena).is_unique());
    assert_eq!(*b.as_rc(&arena).get(), 5);
    assert!(std::ptr::eq(a.as_rc(&arena), b.as_rc(&arena)));
}

#[test]
fn counting_on_the_cell_delays_the_release() {
    let counter = Rc::new(Cell::new(0));
    let mut arena = Arena::new();
    let mut a = RcMut::new(probe(&counter, 8), &mut arena);
    let slot = a.slot();
    a.as_rc_mut(&mut arena).retain();
    assert_eq!(arena.strong_count(slot), 2);
    assert!(a.destroy(&mut arena).is_none());
    assert_eq!(counter.get(), 0);
    assert!(arena.is_live(slot));
    assert_eq!(arena.strong_count(slot), 1);
    let freed = arena.release(slot);
    assert_eq!(freed.as_ref().map(|p| p.tag), Some(8));
    drop(freed);
    assert_eq!(counter.get(), 1);
    assert!(!arena.is_live(slot));
}

#[test]
fn a_clone_may_be_given_up_on_the_cell() {
    let mut arena = Arena::new();
    let mut a = RcMut::new(1u8, &mut arena);
    let b = a.clone(&mut arena);
    a.as_rc_mut(&mut arena).release();
    assert_eq!(arena.strong_count(a.slot()), 1);
    std::mem::forget(b);
    assert_eq!(a.destroy(&mut arena), Some(1));
}

#[test]
fn writing_through_the_cell_is_writing_the_shared_value() {
    let mut arena = Arena::new();
    let mut a = RcMut::new(String::from("a"), &mut arena);
    let b = a.clone(&mut arena);
    a.as_rc_mut(&mut arena).get_mut().push('b');
    assert_eq!(b.borrow(&arena), "ab");
    assert_eq!(arena.strong_count(b.slot()), 2);
}

#[test]
fn a_cell_on_its_own_counts_from_one() {
    let mut cell = Counted::new(3u8);
    assert_eq!(cell.strong_count(), 1);
    assert!(cell.is_unique());
    cell.retain();
    cell.retain();
    assert_eq!(cell.strong_count(), 3);
    assert!(!cell.is_unique());
    cell.release();
    assert_eq!(cell.strong_count(), 2);
    *cell.get_mut() = 4;
    assert_eq!(*cell.get(), 4);
    assert_eq!(cell.into_inner(), 4);
}

#[test]
fn arena_operations_by_slot() {
    let mut arena = Arena::new();
    let id = arena.insert(20u32);
    assert_eq!(id, 0);
    arena.retain(id);
    assert_eq!(arena.strong_count(id), 2);
    *arena.get_mut(id) += 1;
    assert_eq!(*arena.get(id), 21);
    assert_eq!(arena.cell(id).strong_count(), 2);
    arena.cell_mut(id).retain();
    assert_eq!(arena.strong_count(id), 3);
    assert_eq!(arena.release(id), None);
    assert_eq!(arena.release(id), None);
    assert_eq!(arena.release(id), Some(21));
    assert!(!arena.is_live(id));
    assert!(!arena.is_live(7));
    assert_eq!(arena.strong_count(7), 0);
}

#[test]
fn dropping_the_arena_tears_down_what_is_still_live() {
    let counter = Rc::new(Cell::new(0));
    let mut arena = Arena::new();
    let a = RcMut::new(probe(&counter, 1), &mut arena);
    let _b = a.clone(&mut arena);
    let _c = RcMut::new(probe(&counter, 2), &mut arena);
    assert_eq!(counter.get(), 0);
    drop(arena);
    assert_eq!(counter.get(), 2);
}

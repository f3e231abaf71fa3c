//! The mathematical model: a store is a sequence of slots, a slot is either
//! free or holds a value together with the number of handles that share it.

use vstd::prelude::*;

verus! {

/// What one live cell holds.
pub struct CellState<T> {
    /// The shared value.
    pub value: T,
    /// How many handles share the cell; at least one.
    pub count: nat,
}

/// The cell `id` exists and has not been freed.
pub open spec fn live<T>(s: Seq<Option<CellState<T>>>, id: int) -> bool {
    0 <= id < s.len() && s[id] is Some
}

/// The number of handles of cell `id`; zero once it is freed.
pub open spec fn count_of<T>(s: Seq<Option<CellState<T>>>, id: int) -> nat {
    if live(s, id) {
        s[id]->Some_0.count
    } else {
        0
    }
}

/// The cell `id` is live and some handle shares it: what holds of every live
/// cell of an arena.
pub open spec fn held<T>(s: Seq<Option<CellState<T>>>, id: int) -> bool {
    count_of(s, id) >= 1
}

/// The value of the live cell `id`.
pub open spec fn value_of<T>(s: Seq<Option<CellState<T>>>, id: int) -> T
    recommends
        live(s, id),
{
    s[id]->Some_0.value
}

/// The store after a new cell has been made for `value`: it takes the next
/// slot, with one handle.
pub open spec fn constructed<T>(s: Seq<Option<CellState<T>>>, value: T) -> Seq<
    Option<CellState<T>>,
> {
    s.push(Some(CellState { value, count: 1 }))
}

/// The store after a handle of the live cell `id` has been cloned.
pub open spec fn cloned<T>(s: Seq<Option<CellState<T>>>, id: int) -> Seq<Option<CellState<T>>>
    recommends
        live(s, id),
{
    s.update(id, Some(CellState { value: value_of(s, id), count: count_of(s, id) + 1 }))
}

/// The last handle of the live cell `id` is the only one left.
pub open spec fn last_handle<T>(s: Seq<Option<CellState<T>>>, id: int) -> bool {
    count_of(s, id) == 1
}

/// The store after a handle of the live cell `id` has been destroyed: the
/// slot is freed with the last handle, and counts one less otherwise.
pub open spec fn destroyed<T>(s: Seq<Option<CellState<T>>>, id: int) -> Seq<Option<CellState<T>>>
    recommends
        live(s, id),
{
    if last_handle(s, id) {
        s.update(id, None)
    } else {
        s.update(
            id,
            Some(CellState { value: value_of(s, id), count: (count_of(s, id) - 1) as nat }),
        )
    }
}

/// What destroying a handle of the live cell `id` hands back: the value with
/// the last handle, nothing before.
pub open spec fn freed_by<T>(s: Seq<Option<CellState<T>>>, id: int) -> Option<T>
    recommends
        live(s, id),
{
    if last_handle(s, id) {
        Some(value_of(s, id))
    } else {
        None
    }
}

/// The store after `value` has been written to the live cell `id`.
pub open spec fn written<T>(s: Seq<Option<CellState<T>>>, id: int, value: T) -> Seq<
    Option<CellState<T>>,
>
    recommends
        live(s, id),
{
    s.update(id, Some(CellState { value, count: count_of(s, id) }))
}

} // verus!

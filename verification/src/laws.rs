//! What holds of the operations taken together, proved over the model that
//! their contracts are stated in.

use vstd::prelude::*;
use crate::model::{
    CellState, cloned, constructed, count_of, destroyed, freed_by, held, last_handle, live,
    value_of, written,
};

verus! {

/// One change to the count of a cell: a handle is cloned, or one is destroyed.
pub enum Step {
    /// A handle of the cell is cloned.
    Retain,
    /// A handle of the cell is destroyed.
    Release,
}

/// The store after one step on the cell `id`.
pub open spec fn step<T>(s: Seq<Option<CellState<T>>>, id: int, op: Step) -> Seq<
    Option<CellState<T>>,
> {
    match op {
        Step::Retain => cloned(s, id),
        Step::Release => destroyed(s, id),
    }
}

/// The store after the steps `ops` on the cell `id`, first to last.
pub open spec fn run<T>(s: Seq<Option<CellState<T>>>, id: int, ops: Seq<Step>) -> Seq<
    Option<CellState<T>>,
>
    decreases ops.len(),
{
    if ops.len() == 0 {
        s
    } else {
        step(run(s, id, ops.drop_last()), id, ops.last())
    }
}

/// Every step of `ops` finds the cell `id` live, as clone and destroy ask.
pub open spec fn permitted<T>(s: Seq<Option<CellState<T>>>, id: int, ops: Seq<Step>) -> bool
    decreases ops.len(),
{
    ops.len() == 0 || (permitted(s, id, ops.drop_last()) && live(
        run(s, id, ops.drop_last()),
        id,
    ))
}

/// The store that the last step of `ops` works on.
pub open spec fn step_source<T>(s: Seq<Option<CellState<T>>>, id: int, ops: Seq<Step>) -> Seq<
    Option<CellState<T>>,
>
    recommends
        ops.len() > 0,
{
    run(s, id, ops.drop_last())
}

/// How many steps of `ops` free the cell `id` and hand its value back.
pub open spec fn frees<T>(s: Seq<Option<CellState<T>>>, id: int, ops: Seq<Step>) -> nat
    decreases ops.len(),
{
    if ops.len() == 0 {
        0
    } else if freed_by(step_source(s, id, ops), id) is Some && ops.last() is Release {
        frees(s, id, ops.drop_last()) + 1
    } else {
        frees(s, id, ops.drop_last())
    }
}

/// How many steps of `ops` are of the kind `kind`.
pub open spec fn tally(ops: Seq<Step>, kind: Step) -> nat
    decreases ops.len(),
{
    if ops.len() == 0 {
        0
    } else if ops.last() == kind {
        tally(ops.drop_last(), kind) + 1
    } else {
        tally(ops.drop_last(), kind)
    }
}

/// Counting is exact. Over any run of clones and destroys on one live cell,
/// each step finding the cell live: the count is the first count plus the
/// clones less the destroys; the cell is freed at most once; it is freed
/// exactly when no handle is left; the step that frees it is the last step,
/// a destroy of the only handle left; and no other cell is touched.
pub proof fn lemma_counting_exact<T>(s: Seq<Option<CellState<T>>>, id: int, ops: Seq<Step>)
    requires
        held(s, id),
        permitted(s, id, ops),
    ensures
        count_of(run(s, id, ops), id) + tally(ops, Step::Release) == count_of(s, id) + tally(
            ops,
            Step::Retain,
        ),
        frees(s, id, ops) <= 1,
        frees(s, id, ops) == 1 <==> !live(run(s, id, ops), id),
        frees(s, id, ops) == 1 <==> tally(ops, Step::Release) == count_of(s, id) + tally(
            ops,
            Step::Retain,
        ),
        frees(s, id, ops) == 1 ==> ops.len() > 0 && ops.last() is Release && last_handle(
            step_source(s, id, ops),
            id,
        ),
        live(run(s, id, ops), id) ==> value_of(run(s, id, ops), id) == value_of(s, id),
        run(s, id, ops).len() == s.len(),
        forall|other: int|
            0 <= other < s.len() && other != id ==> run(s, id, ops)[other] == s[other],
    decreases ops.len(),
{
    if ops.len() > 0 {
        lemma_counting_exact(s, id, ops.drop_last());
    }
}

/// Every destroy in `ops` gives up a clone made earlier in `ops`: at no point
/// have more handles been destroyed than cloned.
pub open spec fn paired(ops: Seq<Step>) -> bool
    decreases ops.len(),
{
    ops.len() == 0 || (paired(ops.drop_last()) && tally(ops, Step::Release) <= tally(
        ops,
        Step::Retain,
    ))
}

/// Clone and destroy pairs may interleave in any order. While one handle is
/// held throughout, any run in which each destroy gives up a clone made
/// before it finds the cell live at every step and never frees it; the count
/// is the first count plus the clones still out; and once every clone is
/// given up the store is what it was.
pub proof fn lemma_pairs_in_any_order<T>(s: Seq<Option<CellState<T>>>, id: int, ops: Seq<Step>)
    requires
        held(s, id),
        paired(ops),
    ensures
        permitted(s, id, ops),
        frees(s, id, ops) == 0,
        live(run(s, id, ops), id),
        count_of(run(s, id, ops), id) == count_of(s, id) + tally(ops, Step::Retain) - tally(
            ops,
            Step::Release,
        ),
        tally(ops, Step::Release) == tally(ops, Step::Retain) ==> run(s, id, ops) == s,
    decreases ops.len(),
{
    if ops.len() > 0 {
        lemma_pairs_in_any_order(s, id, ops.drop_last());
    }
    lemma_counting_exact(s, id, ops);
    let end = run(s, id, ops);
    if tally(ops, Step::Release) == tally(ops, Step::Retain) {
        assert(end[id]->Some_0 == s[id]->Some_0);
        assert(end =~= s);
    }
}

/// A write through one handle is what every handle of the cell reads: after
/// a clone, whose handle has the same id, a value written to the cell is the
/// value read from it, and the count is what the clone left.
pub proof fn lemma_write_seen_by_every_handle<T>(s: Seq<Option<CellState<T>>>, id: int, v: T)
    requires
        live(s, id),
    ensures
        live(written(cloned(s, id), id, v), id),
        value_of(written(cloned(s, id), id, v), id) == v,
        count_of(written(cloned(s, id), id, v), id) == count_of(s, id) + 1,
        value_of(written(s, id, v), id) == v,
        count_of(written(s, id, v), id) == count_of(s, id),
{
}

/// Cells do not see each other: a write to one cell, a clone or a destroy of
/// one of its handles, leaves every other slot as it was.
pub proof fn lemma_other_cells_untouched<T>(
    s: Seq<Option<CellState<T>>>,
    id: int,
    other: int,
    v: T,
)
    requires
        live(s, id),
        0 <= other < s.len(),
        other != id,
    ensures
        written(s, id, v)[other] == s[other],
        cloned(s, id)[other] == s[other],
        destroyed(s, id)[other] == s[other],
        live(written(s, id, v), other) == live(s, other),
        value_of(written(s, id, v), other) == value_of(s, other),
        count_of(written(s, id, v), other) == count_of(s, other),
{
}

/// Two cells made one after the other are two cells: each is live with one
/// handle and its own value, and a write to either leaves the other's value.
pub proof fn lemma_constructions_independent<T>(
    s: Seq<Option<CellState<T>>>,
    a: T,
    b: T,
    v: T,
)
    ensures
        ({
            let first = s.len() as int;
            let second = first + 1;
            let both = constructed(constructed(s, a), b);
            &&& live(both, first) && live(both, second)
            &&& value_of(both, first) == a && value_of(both, second) == b
            &&& count_of(both, first) == 1 && count_of(both, second) == 1
            &&& value_of(written(both, first, v), second) == b
            &&& value_of(written(both, second, v), first) == a
        }),
{
}

/// Making a cell touches no cell that was there.
pub proof fn lemma_construction_keeps_cells<T>(s: Seq<Option<CellState<T>>>, v: T, other: int)
    requires
        0 <= other < s.len(),
    ensures
        constructed(s, v)[other] == s[other],
        constructed(s, v).len() == s.len() + 1,
        !live(s, s.len() as int),
{
}

/// Counting on the cell itself is counting through a handle: one more on the
/// cell of a handle is a clone of that handle, and one less, while another
/// handle is left, is a destroy.
pub proof fn lemma_cell_count_is_handle_count<T>(s: Seq<Option<CellState<T>>>, id: int)
    requires
        held(s, id),
    ensures
        s.update(
            id,
            Some(CellState { value: s[id]->Some_0.value, count: s[id]->Some_0.count + 1 }),
        ) == cloned(s, id),
        s[id]->Some_0.count > 1 ==> s.update(
            id,
            Some(
                CellState {
                    value: s[id]->Some_0.value,
                    count: (s[id]->Some_0.count - 1) as nat,
                },
            ),
        ) == destroyed(s, id),
        cloned(s, id)[id]->Some_0.count == count_of(s, id) + 1,
        destroyed(cloned(s, id), id) == s,
        freed_by(cloned(s, id), id) is None,
{
    let back = destroyed(cloned(s, id), id);
    assert(back[id]->Some_0 == s[id]->Some_0);
    assert(back =~= s);
}

/// A cell that is made and destroyed at once, with no clone between, takes
/// one slot and frees it: the value comes back, and the store is as before
/// but for the one freed slot.
pub proof fn lemma_construct_then_destroy<T>(s: Seq<Option<CellState<T>>>, v: T)
    ensures
        freed_by(constructed(s, v), s.len() as int) == Some(v),
        destroyed(constructed(s, v), s.len() as int) == s.push(None),
        !live(destroyed(constructed(s, v), s.len() as int), s.len() as int),
{
    assert(destroyed(constructed(s, v), s.len() as int) =~= s.push(None));
}

} // verus!

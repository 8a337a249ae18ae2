//! Properties of the rule and of the grid over several generations.

use vstd::prelude::*;

use crate::cell::{Cell, IDLE_TIME, next_dead_time, next_state};
use crate::universe::{
    all_dead, alive_at, lemma_index_in_grid, live_neighbors, next_cells, next_dead_times, zeros,
};

verus! {

/// A cell's state and counter after one generation for each live-neighbour
/// count in `counts`, taken in order.
pub open spec fn run_cell(s: Cell, d: u8, counts: Seq<int>) -> (Cell, u8)
    decreases counts.len(),
{
    if counts.len() == 0 {
        (s, d)
    } else {
        let prev = run_cell(s, d, counts.drop_last());
        (
            next_state(prev.0, counts.last(), prev.1 as int),
            next_dead_time(prev.0, counts.last(), prev.1),
        )
    }
}

/// A dead cell whose counter starts at zero, and that never has exactly three
/// live neighbours, is still dead after up to `IDLE_TIME` generations, with
/// its counter at the number of generations it has stayed dead; one
/// generation after that it is idle.
pub proof fn lemma_dead_cell_settles(counts: Seq<int>)
    requires
        counts.len() <= IDLE_TIME + 1,
        forall|i: int| 0 <= i < counts.len() ==> counts[i] != 3,
    ensures
        counts.len() <= IDLE_TIME ==> run_cell(Cell::Dead, 0, counts) == (
        Cell::Dead,
        counts.len() as u8,
        ),
        counts.len() == IDLE_TIME + 1 ==> run_cell(Cell::Dead, 0, counts).0 == Cell::Idle,
    decreases counts.len(),
{
    if counts.len() > 0 {
        let rest = counts.drop_last();
        lemma_dead_cell_settles(rest);
    }
}

/// On a grid whose cells are all dead, no position has a live neighbour.
proof fn lemma_no_live_neighbors(w: int, h: int, x: int, y: int)
    requires
        0 <= w,
        0 <= h,
    ensures
        live_neighbors(all_dead((w * h) as nat), w, h, x, y) == 0,
{
    let c = all_dead((w * h) as nat);
    assert forall|i: int, j: int| !alive_at(c, w, h, i, j) by {
        if 0 <= i < w && 0 <= j < h {
            lemma_index_in_grid(i, j, w, h);
        }
    }
}

/// A cleared grid, all cells dead and all counters at zero, keeps every cell
/// dead on the next tick; each counter moves to one.
pub proof fn lemma_cleared_grid_is_fixed(w: nat, h: nat)
    ensures
        next_cells(all_dead(w * h), zeros(w * h), w as int, h as int) == all_dead(w * h),
        next_dead_times(all_dead(w * h), zeros(w * h), w as int, h as int) == Seq::new(
            w * h,
            |i: int| 1u8,
        ),
{
    let c = all_dead(w * h);
    let z = zeros(w * h);
    assert forall|i: int| 0 <= i < w * h implies #[trigger] live_neighbors(
        c,
        w as int,
        h as int,
        i % (w as int),
        i / (w as int),
    ) == 0 by {
        lemma_no_live_neighbors(w as int, h as int, i % (w as int), i / (w as int));
    }
    assert(next_cells(c, z, w as int, h as int) =~= c);
    assert(next_dead_times(c, z, w as int, h as int) =~= Seq::new(w * h, |i: int| 1u8));
}

} // verus!

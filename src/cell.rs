//! Cell states and the rule that moves one cell to its next generation.

use vstd::prelude::*;

verus! {

/// Generations a cell must have stayed dead before it settles into `Idle`.
pub const IDLE_TIME: u8 = 10;

/// The state of one cell of the grid.
#[derive(Clone, Copy, Debug, PartialEq, Eq, Structural)]
pub enum Cell {
    Dead,
    Alive,
    Idle,
}

/// The next state of a cell in state `s` with `n` live neighbours and dead-time
/// counter `d`: the first matching clause decides.
pub open spec fn next_state(s: Cell, n: int, d: int) -> Cell {
    match s {
        Cell::Alive => if n < 2 {
            Cell::Dead
        } else if n < 4 {
            Cell::Alive
        } else {
            Cell::Dead
        },
        Cell::Dead => if n == 3 {
            Cell::Alive
        } else if d >= IDLE_TIME {
            Cell::Idle
        } else {
            Cell::Dead
        },
        Cell::Idle => if n == 3 {
            Cell::Alive
        } else {
            Cell::Idle
        },
    }
}

/// The dead-time counter of that cell after the step: a dead cell that stays
/// dead counts one more generation, a dead cell that leaves `Dead` starts
/// again from zero, and the counter of any other cell is left as it is.
pub open spec fn next_dead_time(s: Cell, n: int, d: u8) -> u8 {
    match s {
        Cell::Dead => if n == 3 || d >= IDLE_TIME {
            0
        } else {
            (d + 1) as u8
        },
        _ => d,
    }
}

/// Moves one cell a generation on: its next state and its next dead-time
/// counter.
pub fn step_cell(s: Cell, n: u8, d: u8) -> (r: (Cell, u8))
    ensures
        r.0 == next_state(s, n as int, d as int),
        r.1 == next_dead_time(s, n as int, d),
{
    match s {
        Cell::Alive => {
            if n < 2 {
                (Cell::Dead, d)
            } else if n < 4 {
                (Cell::Alive, d)
            } else {
                (Cell::Dead, d)
            }
        },
        Cell::Dead => {
            if n == 3 {
                (Cell::Alive, 0)
            } else if d >= IDLE_TIME {
                (Cell::Idle, 0)
            } else {
                (Cell::Dead, d + 1)
            }
        },
        Cell::Idle => {
            if n == 3 {
                (Cell::Alive, d)
            } else {
                (Cell::Idle, d)
            }
        },
    }
}

} // verus!

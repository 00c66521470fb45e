//! The transition rule of the automaton for a single cell.

use vstd::prelude::*;

verus! {

/// The value of a dead cell.
pub const DEAD: u32 = 0;

/// The value that the simulation writes for a live cell. Every value other
/// than `DEAD` counts as alive when it is read.
pub const ALIVE: u32 = 1;

/// Whether a cell is alive in the next generation, given whether it is
/// alive now and how many of its eight neighbours are: a live cell survives
/// with two or three live neighbours, a dead cell is born with exactly
/// three, and every other cell is dead.
pub open spec fn next_alive(alive: bool, live_neighbors: int) -> bool {
    live_neighbors == 3 || (alive && live_neighbors == 2)
}

/// The value of a cell in the next generation, given its value now and the
/// number of its live neighbours.
pub open spec fn next_value(value: u32, live_neighbors: int) -> u32 {
    if next_alive(value != DEAD, live_neighbors) {
        ALIVE
    } else {
        DEAD
    }
}

/// Applies the transition rule to one cell.
pub fn next_cell(value: u32, live_neighbors: u8) -> (next: u32)
    ensures
        next == next_value(value, live_neighbors as int),
        next == DEAD || next == ALIVE,
{
    if live_neighbors == 3 || (value != DEAD && live_neighbors == 2) {
        ALIVE
    } else {
        DEAD
    }
}

} // verus!

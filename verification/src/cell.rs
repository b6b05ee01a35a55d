//! The two cell states and the transition rule for a single cell.

use vstd::prelude::*;

verus! {

/// The state of one grid slot.
#[derive(Clone, Copy, Debug, PartialEq, Eq, Structural)]
pub enum Cell {
    Alive,
    Dead,
}

/// The state a cell takes in the next generation, given its current state and
/// the number of live cells around it: a cell is born on exactly three live
/// neighbours and survives on two or three.
pub open spec fn next_cell(cell: Cell, neighbors: nat) -> Cell {
    if neighbors == 3 || (neighbors == 2 && cell == Cell::Alive) {
        Cell::Alive
    } else {
        Cell::Dead
    }
}

/// The opposite state.
pub open spec fn flipped(cell: Cell) -> Cell {
    match cell {
        Cell::Alive => Cell::Dead,
        Cell::Dead => Cell::Alive,
    }
}

impl Cell {
    /// Whether the cell is alive.
    pub fn is_alive(self) -> (alive: bool)
        ensures
            alive == (self == Cell::Alive),
    {
        match self {
            Cell::Alive => true,
            Cell::Dead => false,
        }
    }

    /// Alive becomes Dead and Dead becomes Alive.
    pub fn toggled(self) -> (out: Cell)
        ensures
            out == flipped(self),
    {
        match self {
            Cell::Alive => Cell::Dead,
            Cell::Dead => Cell::Alive,
        }
    }

    /// Applies the transition rule to one cell.
    pub fn next(self, neighbors: u32) -> (out: Cell)
        ensures
            out == next_cell(self, neighbors as nat),
    {
        if neighbors < 2 {
            // underpopulation
            Cell::Dead
        } else if neighbors > 3 {
            // overpopulation
            Cell::Dead
        } else if self.is_alive() {
            // survival on two or three
            Cell::Alive
        } else if neighbors == 3 {
            // birth
            Cell::Alive
        } else {
            Cell::Dead
        }
    }
}

} // verus!

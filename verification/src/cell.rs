//! A single cell and the rule that decides its fate.

use vstd::prelude::*;

verus! {

/// The state of one position of the grid.
#[derive(Clone, Copy, Debug, PartialEq, Eq, Structural)]
pub enum Cell {
    Dead,
    Alive,
}

/// Draws are taken uniformly from `0..DRAW_RANGE`.
pub const DRAW_RANGE: u32 = 100;

/// A draw below this bound seeds a live cell, so a cell starts alive with
/// probability `ALIVE_BELOW / DRAW_RANGE`.
pub const ALIVE_BELOW: u32 = 33;

impl Cell {
    /// 1 for a live cell, 0 for a dead one.
    pub open spec fn population(self) -> int {
        if self == Cell::Alive {
            1
        } else {
            0
        }
    }

    /// The cell that a uniform draw from `0..DRAW_RANGE` seeds.
    pub open spec fn seeded(draw: u32) -> Cell {
        if draw < ALIVE_BELOW {
            Cell::Alive
        } else {
            Cell::Dead
        }
    }

    /// Conway's rule: the state that follows `self` when `neighbors` of the
    /// eight surrounding cells are alive.
    pub open spec fn rule(self, neighbors: int) -> Cell {
        match self {
            Cell::Alive => if neighbors == 2 || neighbors == 3 {
                Cell::Alive
            } else {
                Cell::Dead
            },
            Cell::Dead => if neighbors == 3 {
                Cell::Alive
            } else {
                Cell::Dead
            },
        }
    }

    /// Turns one uniform draw into the initial state of a cell.
    pub fn from_draw(draw: u32) -> (cell: Cell)
        ensures
            cell == Cell::seeded(draw),
    {
        if draw < ALIVE_BELOW {
            Cell::Alive
        } else {
            Cell::Dead
        }
    }

    pub fn is_alive(self) -> (alive: bool)
        ensures
            alive == (self == Cell::Alive),
    {
        match self {
            Cell::Alive => true,
            Cell::Dead => false,
        }
    }

    /// Applies Conway's rule to a cell with the given count of live
    /// neighbours.
    pub fn next_state(self, neighbors: u8) -> (cell: Cell)
        ensures
            cell == self.rule(neighbors as int),
    {
        match self {
            Cell::Alive => if neighbors == 2 || neighbors == 3 {
                Cell::Alive
            } else {
                Cell::Dead
            },
            Cell::Dead => if neighbors == 3 {
                Cell::Alive
            } else {
                Cell::Dead
            },
        }
    }
}

/// A live cell with fewer than two or more than three live neighbours dies; a
/// live cell with two or three survives; a dead cell comes alive with exactly
/// three live neighbours and stays dead otherwise.
pub proof fn rule_cases(neighbors: int)
    ensures
        (neighbors < 2 || neighbors > 3) ==> Cell::Alive.rule(neighbors) == Cell::Dead,
        (neighbors == 2 || neighbors == 3) ==> Cell::Alive.rule(neighbors) == Cell::Alive,
        neighbors == 3 ==> Cell::Dead.rule(neighbors) == Cell::Alive,
        neighbors != 3 ==> Cell::Dead.rule(neighbors) == Cell::Dead,
{
}

} // verus!

//! The content of one voxel.

use vstd::prelude::*;

verus! {

/// What one voxel of the grid holds.
#[derive(Debug, Clone, Copy, PartialEq, Eq, Structural)]
pub enum Cell {
    /// Outside the playable level: never entered, never stood upon.
    Void,
    /// Traversable and unoccupied.
    Empty,
    /// Solid: stops lateral movement and carries the snake.
    Block,
    /// Traversable; eating it makes the snake grow.
    Food,
}

impl Cell {
    /// The character that stands for this cell on the screen.
    pub open spec fn glyph(self) -> char {
        match self {
            Cell::Void => 'V',
            Cell::Empty => ' ',
            Cell::Block => 'W',
            Cell::Food => 'F',
        }
    }

    pub fn to_char(self) -> (c: char)
        ensures
            c == self.glyph(),
    {
        match self {
            Cell::Void => 'V',
            Cell::Empty => ' ',
            Cell::Block => 'W',
            Cell::Food => 'F',
        }
    }
}

} // verus!

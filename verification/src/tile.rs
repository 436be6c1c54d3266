use vstd::prelude::*;

verus! {

/// What one cell of the board holds.
#[derive(Debug, Clone, Copy, PartialEq, Eq, Hash, Structural)]
pub enum Tile {
    Empty,
    X,
    O,
}

/// The place of a cell on the board: `x` is the row, counted from the top,
/// and `y` the column, counted from the left.
#[derive(Debug, Clone, Copy, PartialEq, Eq, Hash, Structural)]
pub struct Coordinates {
    pub x: u16,
    pub y: u16,
}

} // verus!

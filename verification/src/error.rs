use vstd::prelude::*;

verus! {

/// Why a request was turned down. Every variant leaves the state it was made
/// on untouched.
#[derive(Debug, Clone, Copy, PartialEq, Eq, Hash, Structural)]
pub enum GameError {
    /// A board or a setting was asked for with a size that is not on offer.
    InvalidSize,
    /// The coordinates name no cell of the board.
    OutOfBounds,
    /// The cell already holds a mark.
    CellOccupied,
    /// The match has been decided; it takes no further moves.
    MatchFinished,
}

} // verus!

use vstd::prelude::*;
use crate::tile::Tile;
use crate::tile_map::TileMap;

verus! {

/// How a match stands.
#[derive(Debug, Clone, Copy, PartialEq, Eq, Hash, Structural)]
pub enum MatchOutcome {
    /// No line is complete and a cell is still empty.
    InProgress,
    /// The player of this mark owns a complete line.
    Win(Tile),
    /// The board is full and nobody owns a complete line.
    Draw,
}

/// Every cell of row `row` holds `mark`.
pub open spec fn row_filled(grid: Seq<Seq<Tile>>, row: int, mark: Tile) -> bool {
    forall|c: int| 0 <= c < grid.len() ==> #[trigger] grid[row][c] == mark
}

/// Every cell of column `column` holds `mark`.
pub open spec fn column_filled(grid: Seq<Seq<Tile>>, column: int, mark: Tile) -> bool {
    forall|r: int| 0 <= r < grid.len() ==> (#[trigger] grid[r])[column] == mark
}

/// Every cell of the diagonal from the top left to the bottom right holds
/// `mark`.
pub open spec fn diagonal_filled(grid: Seq<Seq<Tile>>, mark: Tile) -> bool {
    forall|i: int| 0 <= i < grid.len() ==> (#[trigger] grid[i])[i] == mark
}

/// Every cell of the diagonal from the top right to the bottom left holds
/// `mark`.
pub open spec fn anti_diagonal_filled(grid: Seq<Seq<Tile>>, mark: Tile) -> bool {
    forall|i: int| 0 <= i < grid.len() ==> (#[trigger] grid[i])[grid.len() - 1 - i] == mark
}

/// Some row holds `mark` in every cell.
pub open spec fn some_row_filled(grid: Seq<Seq<Tile>>, mark: Tile) -> bool {
    exists|r: int| 0 <= r < grid.len() && #[trigger] row_filled(grid, r, mark)
}

/// Some column holds `mark` in every cell.
pub open spec fn some_column_filled(grid: Seq<Seq<Tile>>, mark: Tile) -> bool {
    exists|c: int| 0 <= c < grid.len() && #[trigger] column_filled(grid, c, mark)
}

/// A full line of the board (a row, a column or one of the two diagonals)
/// holds `mark` in every cell. On a board of side N a line has N cells.
pub open spec fn has_line(grid: Seq<Seq<Tile>>, mark: Tile) -> bool {
    ||| some_row_filled(grid, mark)
    ||| some_column_filled(grid, mark)
    ||| diagonal_filled(grid, mark)
    ||| anti_diagonal_filled(grid, mark)
}

/// The player of `mark` has won on `grid`.
pub open spec fn wins(grid: Seq<Seq<Tile>>, mark: Tile) -> bool {
    mark != Tile::Empty && has_line(grid, mark)
}

/// No cell of `grid` is empty.
pub open spec fn is_full(grid: Seq<Seq<Tile>>) -> bool {
    forall|r: int, c: int|
        0 <= r < grid.len() && 0 <= c < grid.len() ==> #[trigger] grid[r][c] != Tile::Empty
}

/// How a match stands on `grid`. A line of X is looked for before a line of O;
/// in play at most one of the two can be there.
pub open spec fn outcome_of(grid: Seq<Seq<Tile>>) -> MatchOutcome {
    if wins(grid, Tile::X) {
        MatchOutcome::Win(Tile::X)
    } else if wins(grid, Tile::O) {
        MatchOutcome::Win(Tile::O)
    } else if is_full(grid) {
        MatchOutcome::Draw
    } else {
        MatchOutcome::InProgress
    }
}

impl TileMap {
    fn row_holds(&self, row: usize, mark: Tile) -> (filled: bool)
        requires
            self.wf(),
            row < self@.len(),
        ensures
            filled == row_filled(self@, row as int, mark),
    {
        let side: usize = self.size() as usize;
        let mut column: usize = 0;
        while column < side
            invariant
                self.wf(),
                side == self@.len(),
                row < side,
                column <= side,
                forall|c: int| 0 <= c < column ==> #[trigger] self@[row as int][c] == mark,
            decreases side - column,
        {
            if self.tile(row, column) != mark {
                return false;
            }
            column = column + 1;
        }
        true
    }

    fn column_holds(&self, column: usize, mark: Tile) -> (filled: bool)
        requires
            self.wf(),
            column < self@.len(),
        ensures
            filled == column_filled(self@, column as int, mark),
    {
        let side: usize = self.size() as usize;
        let mut row: usize = 0;
        while row < side
            invariant
                self.wf(),
                side == self@.len(),
                column < side,
                row <= side,
                forall|r: int| 0 <= r < row ==> (#[trigger] self@[r])[column as int] == mark,
            decreases side - row,
        {
            if self.tile(row, column) != mark {
                return false;
            }
            row = row + 1;
        }
        true
    }

    fn diagonal_holds(&self, mark: Tile) -> (filled: bool)
        requires
            self.wf(),
        ensures
            filled == diagonal_filled(self@, mark),
    {
        let side: usize = self.size() as usize;
        let mut i: usize = 0;
        while i < side
            invariant
                self.wf(),
                side == self@.len(),
                i <= side,
                forall|k: int| 0 <= k < i ==> (#[trigger] self@[k])[k] == mark,
            decreases side - i,
        {
            if self.tile(i, i) != mark {
                return false;
            }
            i = i + 1;
        }
        true
    }

    fn anti_diagonal_holds(&self, mark: Tile) -> (filled: bool)
        requires
            self.wf(),
        ensures
            filled == anti_diagonal_filled(self@, mark),
    {
        let side: usize = self.size() as usize;
        let mut i: usize = 0;
        while i < side
            invariant
                self.wf(),
                side == self@.len(),
                i <= side,
                forall|k: int| 0 <= k < i ==> (#[trigger] self@[k])[side - 1 - k] == mark,
            decreases side - i,
        {
            if self.tile(i, side - 1 - i) != mark {
                return false;
            }
            i = i + 1;
        }
        true
    }

    fn some_row_holds(&self, mark: Tile) -> (found: bool)
        requires
            self.wf(),
        ensures
            found == some_row_filled(self@, mark),
    {
        let side: usize = self.size() as usize;
        let mut row: usize = 0;
        while row < side
            invariant
                self.wf(),
                side == self@.len(),
                row <= side,
                forall|r: int| 0 <= r < row ==> !#[trigger] row_filled(self@, r, mark),
            decreases side - row,
        {
            if self.row_holds(row, mark) {
                return true;
            }
            row = row + 1;
        }
        false
    }

    fn some_column_holds(&self, mark: Tile) -> (found: bool)
        requires
            self.wf(),
        ensures
            found == some_column_filled(self@, mark),
    {
        let side: usize = self.size() as usize;
        let mut column: usize = 0;
        while column < side
            invariant
                self.wf(),
                side == self@.len(),
                column <= side,
                forall|c: int| 0 <= c < column ==> !#[trigger] column_filled(self@, c, mark),
            decreases side - column,
        {
            if self.column_holds(column, mark) {
                return true;
            }
            column = column + 1;
        }
        false
    }

    /// Whether a full line of the board holds `mark` in every cell.
    pub fn holds_line(&self, mark: Tile) -> (found: bool)
        requires
            self.wf(),
        ensures
            found == has_line(self@, mark),
    {
        self.some_row_holds(mark) || self.some_column_holds(mark) || self.diagonal_holds(mark)
            || self.anti_diagonal_holds(mark)
    }

    /// Whether no cell is empty.
    pub fn full(&self) -> (full: bool)
        requires
            self.wf(),
        ensures
            full == is_full(self@),
    {
        let side: usize = self.size() as usize;
        let mut row: usize = 0;
        while row < side
            invariant
                self.wf(),
                side == self@.len(),
                row <= side,
                forall|r: int, c: int|
                    0 <= r < row && 0 <= c < side ==> #[trigger] self@[r][c] != Tile::Empty,
            decreases side - row,
        {
            let mut column: usize = 0;
            while column < side
                invariant
                    self.wf(),
                    side == self@.len(),
                    row < side,
                    column <= side,
                    forall|r: int, c: int|
                        0 <= r < row && 0 <= c < side ==> #[trigger] self@[r][c] != Tile::Empty,
                    forall|c: int|
                        0 <= c < column ==> #[trigger] self@[row as int][c] != Tile::Empty,
                decreases side - column,
            {
                if self.tile(row, column) == Tile::Empty {
                    return false;
                }
                column = column + 1;
            }
            row = row + 1;
        }
        true
    }

    /// How the match stands on this board: a win for the owner of a complete
    /// line, a draw on a full board without one, and in progress otherwise.
    pub fn outcome(&self) -> (outcome: MatchOutcome)
        requires
            self.wf(),
        ensures
            outcome == outcome_of(self@),
    {
        if self.holds_line(Tile::X) {
            MatchOutcome::Win(Tile::X)
        } else if self.holds_line(Tile::O) {
            MatchOutcome::Win(Tile::O)
        } else if self.full() {
            MatchOutcome::Draw
        } else {
            MatchOutcome::InProgress
        }
    }
}

} // verus!

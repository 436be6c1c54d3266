use vstd::prelude::*;
use vstd::string::StringExecFns;
use crate::error::GameError;
use crate::tile::{Coordinates, Tile};

verus! {

/// A grid is square when every row is as long as the grid is tall.
pub open spec fn is_square(grid: Seq<Seq<Tile>>) -> bool {
    forall|r: int| 0 <= r < grid.len() ==> #[trigger] grid[r].len() == grid.len()
}

/// The grid of `side` rows and `side` columns in which every cell is empty.
pub open spec fn empty_grid(side: nat) -> Seq<Seq<Tile>> {
    Seq::new(side, |r: int| Seq::new(side, |c: int| Tile::Empty))
}

/// Whether `coordinates` name a cell of a square grid.
pub open spec fn in_range(grid: Seq<Seq<Tile>>, coordinates: Coordinates) -> bool {
    coordinates.x < grid.len() && coordinates.y < grid.len()
}

/// The mark that `grid` holds at `coordinates`.
pub open spec fn tile_at(grid: Seq<Seq<Tile>>, coordinates: Coordinates) -> Tile {
    grid[coordinates.x as int][coordinates.y as int]
}

/// `grid` with the cell at `coordinates` replaced by `tile`.
pub open spec fn with_tile(grid: Seq<Seq<Tile>>, coordinates: Coordinates, tile: Tile) -> Seq<
    Seq<Tile>,
> {
    grid.update(
        coordinates.x as int,
        grid[coordinates.x as int].update(coordinates.y as int, tile),
    )
}

/// How a mark is written out.
pub open spec fn tile_text(tile: Tile) -> Seq<char> {
    match tile {
        Tile::Empty => seq!['E', 'm', 'p', 't', 'y'],
        Tile::X => seq!['X'],
        Tile::O => seq!['O'],
    }
}

/// The marks of `row` written out from left to right, a space after each.
pub open spec fn cells_text(row: Seq<Tile>) -> Seq<char>
    decreases row.len(),
{
    if row.len() == 0 {
        Seq::empty()
    } else {
        cells_text(row.drop_last()) + tile_text(row.last()) + seq![' ']
    }
}

/// The rows of `grid` written out from the top, each on a line of its own.
pub open spec fn rows_text(grid: Seq<Seq<Tile>>) -> Seq<char>
    decreases grid.len(),
{
    if grid.len() == 0 {
        Seq::empty()
    } else {
        rows_text(grid.drop_last()) + cells_text(grid.last()) + seq!['\n']
    }
}

/// `grid` written out for reading: its rows, then an empty line.
pub open spec fn grid_text(grid: Seq<Seq<Tile>>) -> Seq<char> {
    rows_text(grid) + seq!['\n']
}

/// The cells of a board, row by row.
#[derive(Debug, Clone)]
pub struct TileMap(Vec<Vec<Tile>>);

impl View for TileMap {
    type V = Seq<Seq<Tile>>;

    closed spec fn view(&self) -> Seq<Seq<Tile>> {
        Seq::new(self.0@.len(), |r: int| self.0@[r]@)
    }
}

impl TileMap {
    /// A tile map is well formed when it is square, has at least one cell and
    /// its side fits the size it was asked for.
    pub open spec fn wf(&self) -> bool {
        &&& is_square(self@)
        &&& 1 <= self@.len() <= u32::MAX
    }

    /// Creates a board of `size` by `size` empty cells.
    pub fn empty(size: u32) -> (result: Result<TileMap, GameError>)
        ensures
            size < 1 ==> result is Err && result->Err_0 == GameError::InvalidSize,
            size >= 1 ==> result is Ok && result->Ok_0.wf() && result->Ok_0@ == empty_grid(
                size as nat,
            ),
            size >= 1 ==> result->Ok_0@.len() == size && forall|r: int, c: int|
                0 <= r < size && 0 <= c < size ==> result->Ok_0@[r].len() == size
                    && #[trigger] result->Ok_0@[r][c] == Tile::Empty,
    {
        if size < 1 {
            return Err(GameError::InvalidSize);
        }
        let side: usize = size as usize;
        let mut rows: Vec<Vec<Tile>> = Vec::new();
        let mut r: usize = 0;
        while r < side
            invariant
                r <= side,
                rows@.len() == r,
                forall|i: int| 0 <= i < r ==> #[trigger] rows@[i]@ == Seq::new(
                    side as nat,
                    |c: int| Tile::Empty,
                ),
            decreases side - r,
        {
            let mut row: Vec<Tile> = Vec::new();
            let mut c: usize = 0;
            while c < side
                invariant
                    c <= side,
                    row@.len() == c,
                    forall|j: int| 0 <= j < c ==> #[trigger] row@[j] == Tile::Empty,
                decreases side - c,
            {
                row.push(Tile::Empty);
                c = c + 1;
            }
            assert(row@ =~= Seq::new(side as nat, |c: int| Tile::Empty));
            rows.push(row);
            r = r + 1;
        }
        let map = TileMap(rows);
        assert(map@ =~= empty_grid(size as nat));
        Ok(map)
    }

    /// The number of rows, which is also the number of columns.
    pub fn size(&self) -> (side: u32)
        requires
            self.wf(),
        ensures
            side == self@.len(),
    {
        self.0.len() as u32
    }

    /// Writes the board out for reading: one line for each row, from the
    /// top, with a space after each mark, and an empty line at the end.
    pub fn render_as_text(&self) -> (text: String)
        ensures
            text@ == grid_text(self@),
    {
        let mut text = String::new();
        let mut r: usize = 0;
        assert(self@.take(0) =~= Seq::<Seq<Tile>>::empty());
        while r < self.0.len()
            invariant
                r <= self.0.len(),
                self.0@.len() == self@.len(),
                text@ == rows_text(self@.take(r as int)),
            decreases self.0.len() - r,
        {
            let row = &self.0[r];
            let ghost above = text@;
            let mut c: usize = 0;
            assert(row@.take(0) =~= Seq::<Tile>::empty());
            while c < row.len()
                invariant
                    c <= row.len(),
                    text@ == above + cells_text(row@.take(c as int)),
                decreases row.len() - c,
            {
                let name = match row[c] {
                    Tile::Empty => "Empty",
                    Tile::X => "X",
                    Tile::O => "O",
                };
                proof {
                    reveal_strlit("Empty");
                    reveal_strlit("X");
                    reveal_strlit("O");
                    reveal_strlit(" ");
                    assert(name@ =~= tile_text(row@[c as int]));
                    assert(" "@ =~= seq![' ']);
                    assert(row@.take(c + 1).drop_last() =~= row@.take(c as int));
                    assert(row@.take(c + 1).last() == row@[c as int]);
                }
                text.append(name);
                text.append(" ");
                assert(text@ =~= above + cells_text(row@.take(c + 1)));
                c = c + 1;
            }
            proof {
                reveal_strlit("\n");
                assert("\n"@ =~= seq!['\n']);
                assert(row@.take(c as int) =~= row@);
                assert(self@.take(r + 1).drop_last() =~= self@.take(r as int));
                assert(self@.take(r + 1).last() == row@);
            }
            text.append("\n");
            assert(text@ =~= rows_text(self@.take(r + 1)));
            r = r + 1;
        }
        proof {
            reveal_strlit("\n");
            assert("\n"@ =~= seq!['\n']);
            assert(self@.take(r as int) =~= self@);
        }
        text.append("\n");
        text
    }

    /// The mark in row `row`, column `column`.
    pub(crate) fn tile(&self, row: usize, column: usize) -> (tile: Tile)
        requires
            self.wf(),
            row < self@.len(),
            column < self@.len(),
        ensures
            tile == self@[row as int][column as int],
    {
        assert(self@[row as int].len() == self@.len());
        self.0[row][column]
    }

    /// Reads the cell at `coordinates`.
    pub fn cell_at(&self, coordinates: Coordinates) -> (result: Result<Tile, GameError>)
        requires
            self.wf(),
        ensures
            in_range(self@, coordinates) ==> result == Ok::<Tile, GameError>(
                tile_at(self@, coordinates),
            ),
            !in_range(self@, coordinates) ==> result == Err::<Tile, GameError>(
                GameError::OutOfBounds,
            ),
    {
        let row: usize = coordinates.x as usize;
        let column: usize = coordinates.y as usize;
        if row >= self.0.len() || column >= self.0.len() {
            return Err(GameError::OutOfBounds);
        }
        assert(self@[row as int].len() == self@.len());
        Ok(self.0[row][column])
    }

    /// Writes `tile` into the cell at `coordinates`, which must be empty.
    /// A refused write leaves the board as it was.
    pub fn set_cell(&mut self, coordinates: Coordinates, tile: Tile) -> (result: Result<
        (),
        GameError,
    >)
        requires
            old(self).wf(),
        ensures
            final(self).wf(),
            !in_range(old(self)@, coordinates) ==> result == Err::<(), GameError>(
                GameError::OutOfBounds,
            ),
            in_range(old(self)@, coordinates) && tile_at(old(self)@, coordinates) != Tile::Empty
                ==> result == Err::<(), GameError>(GameError::CellOccupied),
            in_range(old(self)@, coordinates) && tile_at(old(self)@, coordinates) == Tile::Empty
                ==> result == Ok::<(), GameError>(()) && final(self)@ == with_tile(
                old(self)@,
                coordinates,
                tile,
            ),
            result is Err ==> *final(self) == *old(self),
    {
        let row: usize = coordinates.x as usize;
        let column: usize = coordinates.y as usize;
        if row >= self.0.len() || column >= self.0.len() {
            return Err(GameError::OutOfBounds);
        }
        assert(self@[row as int].len() == self@.len());
        if self.0[row][column] != Tile::Empty {
            return Err(GameError::CellOccupied);
        }
        self.0[row][column] = tile;
        assert(self@ =~= with_tile(old(self)@, coordinates, tile));
        assert forall|r: int| 0 <= r < self@.len() implies #[trigger] self@[r].len()
            == self@.len() by {
            assert(old(self)@[r].len() == old(self)@.len());
        }
        Ok(())
    }
}

} // verus!

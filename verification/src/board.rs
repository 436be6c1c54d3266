use vstd::prelude::*;
use vstd::arithmetic::div_mod::lemma_div_multiples_vanish_fancy;
use bevy::prelude::Entity;
use crate::error::GameError;
use crate::geometry::{
    cell_under, lemma_cell_under_respects_bounds, locate, Bounds2, Position,
};
use crate::tile::{Coordinates, Tile};
use crate::tile_map::{empty_grid, in_range, is_square, tile_at, with_tile, TileMap};
use crate::tile_table::{tile_entities, TileTable, MAX_RESERVED_TILES};

verus! {

/// What a board is made of: its cells, the side of one cell on the screen,
/// the square of the screen that the cells fill, and the entity that draws
/// each cell, by row and column.
pub struct BoardView {
    pub grid: Seq<Seq<Tile>>,
    pub tile_size: u32,
    pub bounds: Bounds2,
    pub entities: Map<(u16, u16), Entity>,
}

impl BoardView {
    /// The grid is square and not empty, its cells fill the bounding box
    /// exactly, the box lies where positions can reach, and only cells of the
    /// grid have an entity.
    pub open spec fn wf(self) -> bool {
        &&& is_square(self.grid)
        &&& 1 <= self.grid.len() <= u32::MAX
        &&& self.bounds.size == self.grid.len() * self.tile_size
        &&& self.bounds.position.x + self.bounds.size <= i32::MAX + 1
        &&& self.bounds.position.y + self.bounds.size <= i32::MAX + 1
        &&& forall|key: (u16, u16)| #[trigger]
            self.entities.contains_key(key) ==> key.0 < self.grid.len() && key.1
                < self.grid.len()
    }
}

/// The key under which the entity of the cell at `coordinates` is kept.
pub open spec fn key_of(coordinates: Coordinates) -> (u16, u16) {
    (coordinates.x, coordinates.y)
}

/// Where a point of a window lies on the screen, along `x`: the screen's
/// origin is the centre of the window.
pub open spec fn screen_x(window_width: u32, x: int) -> int {
    x - (window_width as int) / 2
}

/// Where a point of a window lies on the screen, along `y`: the screen's
/// origin is the centre of the window, and `y` grows the other way.
pub open spec fn screen_y(window_height: u32, y: int) -> int {
    -(y - (window_height as int) / 2)
}

/// The cell of `board` under a pointer at `position` in a window of the given
/// size, if the pointer is over a cell.
pub open spec fn cell_clicked(
    board: BoardView,
    window_width: u32,
    window_height: u32,
    position: Position,
) -> Option<Coordinates> {
    match cell_under(
        board.bounds,
        board.tile_size,
        screen_x(window_width, position.x as int),
        screen_y(window_height, position.y as int),
    ) {
        Some(cell) => if in_range(board.grid, cell) {
            Some(cell)
        } else {
            None
        },
        None => None,
    }
}

/// The middle of the cell at `coordinates`, along `x`.
pub open spec fn center_x(board: BoardView, coordinates: Coordinates) -> int {
    board.bounds.position.x + coordinates.y * board.tile_size + board.tile_size / 2
}

/// The middle of the cell at `coordinates`, along `y`.
pub open spec fn center_y(board: BoardView, coordinates: Coordinates) -> int {
    board.bounds.position.y + coordinates.x * board.tile_size + board.tile_size / 2
}

/// The board of `size` by `size` empty cells laid out in a square of side
/// `length` around the origin of the screen, before anything draws it: a
/// cell has the largest whole side with which `size` cells fit into `length`,
/// and the bounding box is the square that the cells fill.
pub open spec fn fresh_board(size: u32, length: u32) -> BoardView {
    BoardView {
        grid: empty_grid(size as nat),
        tile_size: length / size,
        bounds: Bounds2 {
            position: Position { x: (-(length / 2)) as i32, y: (-(length / 2)) as i32 },
            size: (size * (length / size)) as u32,
        },
        entities: Map::empty(),
    }
}

/// A board on the screen: its cells, where they lie, and what draws them.
pub struct Board {
    tile_map: TileMap,
    tile_size: u32,
    bounds: Bounds2,
    coord_to_tile: TileTable,
}

impl View for Board {
    type V = BoardView;

    closed spec fn view(&self) -> BoardView {
        BoardView {
            grid: self.tile_map@,
            tile_size: self.tile_size,
            bounds: self.bounds,
            entities: tile_entities(self.coord_to_tile),
        }
    }
}

impl Board {
    /// A board is well formed when what it is made of is.
    pub open spec fn wf(&self) -> bool {
        self@.wf()
    }

    /// Lays out an empty board of `size` by `size` cells in a square of side
    /// `length` around the origin of the screen.
    pub fn new(size: u32, length: u32) -> (result: Result<Board, GameError>)
        ensures
            size < 1 ==> result is Err && result->Err_0 == GameError::InvalidSize,
            size >= 1 ==> result is Ok && result->Ok_0.wf() && result->Ok_0@ == fresh_board(
                size,
                length,
            ),
    {
        let tile_map = match TileMap::empty(size) {
            Ok(tile_map) => tile_map,
            Err(error) => {
                return Err(error);
            },
        };
        let tile_size: u32 = length / size;
        assert(size * tile_size <= length) by (nonlinear_arith)
            requires
                size >= 1,
                tile_size == length / size,
        ;
        let start: i32 = -((length / 2) as i32);
        assert(size * size <= 0xffff_ffff * 0xffff_ffff) by (nonlinear_arith)
            requires
                0 <= size <= 0xffff_ffff,
        ;
        let cells: u64 = (size as u64) * (size as u64);
        let capacity: usize = if cells <= MAX_RESERVED_TILES as u64 {
            cells as usize
        } else {
            MAX_RESERVED_TILES
        };
        let board = Board {
            tile_map,
            tile_size,
            bounds: Bounds2 { position: Position { x: start, y: start }, size: size * tile_size },
            coord_to_tile: TileTable::with_capacity(capacity),
        };
        Ok(board)
    }

    /// The cells of the board.
    pub fn tile_map(&self) -> (tile_map: &TileMap)
        ensures
            tile_map@ == self@.grid,
            self.wf() ==> tile_map.wf(),
    {
        &self.tile_map
    }

    /// The side of one cell on the screen.
    pub fn tile_size(&self) -> (tile_size: u32)
        ensures
            tile_size == self@.tile_size,
    {
        self.tile_size
    }

    /// The square of the screen that the cells fill.
    pub fn bounds(&self) -> (bounds: Bounds2)
        ensures
            bounds == self@.bounds,
    {
        self.bounds
    }

    /// The cell under the pointer, for a pointer at `position` in a window of
    /// the given size. Window positions are counted from a corner of the
    /// window; the board lies on a screen whose origin is the window's centre
    /// and whose `y` runs the other way.
    pub fn mouse_position(&self, window_width: u32, window_height: u32, position: Position) -> (cell:
        Option<Coordinates>)
        requires
            self.wf(),
        ensures
            cell == cell_clicked(self@, window_width, window_height, position),
    {
        let x: i64 = position.x as i64 - (window_width / 2) as i64;
        let y: i64 = -(position.y as i64 - (window_height / 2) as i64);
        let side: u32 = self.tile_map.size();
        match locate(&self.bounds, self.tile_size, x, y) {
            Some(cell) => if (cell.x as u32) < side && (cell.y as u32) < side {
                Some(cell)
            } else {
                None
            },
            None => None,
        }
    }

    /// The entity that draws the cell at `coordinates`, if one was attached.
    pub fn get_tile(&self, coordinates: &Coordinates) -> (tile: Option<&Entity>)
        ensures
            tile == (if self@.entities.contains_key(key_of(*coordinates)) {
                Some(&self@.entities[key_of(*coordinates)])
            } else {
                None
            }),
    {
        self.coord_to_tile.get((coordinates.x, coordinates.y))
    }

    /// Records that `entity` draws the cell at `coordinates`, and hands back
    /// the entity that drew it before, if there was one. Coordinates off the
    /// board are refused and change nothing.
    pub fn attach_tile(&mut self, coordinates: Coordinates, entity: Entity) -> (result: Result<
        Option<Entity>,
        GameError,
    >)
        requires
            old(self).wf(),
        ensures
            final(self).wf(),
            !in_range(old(self)@.grid, coordinates) ==> result == Err::<
                Option<Entity>,
                GameError,
            >(GameError::OutOfBounds) && *final(self) == *old(self),
            in_range(old(self)@.grid, coordinates) ==> result == Ok::<
                Option<Entity>,
                GameError,
            >(
                if old(self)@.entities.contains_key(key_of(coordinates)) {
                    Some(old(self)@.entities[key_of(coordinates)])
                } else {
                    None
                },
            ) && final(self)@ == (BoardView {
                entities: old(self)@.entities.insert(key_of(coordinates), entity),
                ..old(self)@
            }),
    {
        let side: u32 = self.tile_map.size();
        if coordinates.x as u32 >= side || coordinates.y as u32 >= side {
            return Err(GameError::OutOfBounds);
        }
        let previous = self.coord_to_tile.insert((coordinates.x, coordinates.y), entity);
        Ok(previous)
    }

    /// The middle of the cell at `coordinates` on the screen.
    pub fn tile_center(&self, coordinates: Coordinates) -> (result: Result<Position, GameError>)
        requires
            self.wf(),
        ensures
            !in_range(self@.grid, coordinates) ==> result == Err::<Position, GameError>(
                GameError::OutOfBounds,
            ),
            in_range(self@.grid, coordinates) ==> result is Ok && result->Ok_0.x == center_x(
                self@,
                coordinates,
            ) && result->Ok_0.y == center_y(self@, coordinates),
    {
        let side: u32 = self.tile_map.size();
        if coordinates.x as u32 >= side || coordinates.y as u32 >= side {
            return Err(GameError::OutOfBounds);
        }
        proof {
            lemma_center_in_bounds(self@, coordinates);
        }
        let tile_size: i64 = self.tile_size as i64;
        assert(coordinates.y * tile_size <= 0xffff * 0xffff_ffff) by (nonlinear_arith)
            requires
                0 <= coordinates.y <= 0xffff,
                0 <= tile_size <= 0xffff_ffff,
        ;
        assert(coordinates.x * tile_size <= 0xffff * 0xffff_ffff) by (nonlinear_arith)
            requires
                0 <= coordinates.x <= 0xffff,
                0 <= tile_size <= 0xffff_ffff,
        ;
        let x: i64 = self.bounds.position.x as i64 + (coordinates.y as i64) * tile_size + tile_size
            / 2;
        let y: i64 = self.bounds.position.y as i64 + (coordinates.x as i64) * tile_size + tile_size
            / 2;
        Ok(Position { x: x as i32, y: y as i32 })
    }

    /// Writes `tile` into the empty cell at `coordinates`; see
    /// `TileMap::set_cell`.
    pub(crate) fn place(&mut self, coordinates: Coordinates, tile: Tile) -> (result: Result<
        (),
        GameError,
    >)
        requires
            old(self).wf(),
        ensures
            final(self).wf(),
            !in_range(old(self)@.grid, coordinates) ==> result == Err::<(), GameError>(
                GameError::OutOfBounds,
            ),
            in_range(old(self)@.grid, coordinates) && tile_at(old(self)@.grid, coordinates)
                != Tile::Empty ==> result == Err::<(), GameError>(GameError::CellOccupied),
            in_range(old(self)@.grid, coordinates) && tile_at(old(self)@.grid, coordinates)
                == Tile::Empty ==> result == Ok::<(), GameError>(()) && final(self)@ == (BoardView {
                grid: with_tile(old(self)@.grid, coordinates, tile),
                ..old(self)@
            }),
            result is Err ==> *final(self) == *old(self),
    {
        self.tile_map.set_cell(coordinates, tile)
    }
}

/// The middle of a cell of the board lies in the bounding box, at a place
/// that positions can name.
pub proof fn lemma_center_in_bounds(board: BoardView, coordinates: Coordinates)
    requires
        board.wf(),
        in_range(board.grid, coordinates),
    ensures
        board.bounds.contains(center_x(board, coordinates), center_y(board, coordinates)),
        i32::MIN <= center_x(board, coordinates) <= i32::MAX,
        i32::MIN <= center_y(board, coordinates) <= i32::MAX,
{
    let side = board.grid.len() as int;
    let tile_size = board.tile_size as int;
    let row = coordinates.x as int;
    let column = coordinates.y as int;
    assert(0 <= column * tile_size && (tile_size > 0 ==> column * tile_size + tile_size / 2 < side
        * tile_size)) by (nonlinear_arith)
        requires
            0 <= column < side,
            0 <= tile_size,
    ;
    assert(0 <= row * tile_size && (tile_size > 0 ==> row * tile_size + tile_size / 2 < side
        * tile_size)) by (nonlinear_arith)
        requires
            0 <= row < side,
            0 <= tile_size,
    ;
    if tile_size == 0 {
        assert(column * tile_size == 0 && row * tile_size == 0) by (nonlinear_arith)
            requires
                tile_size == 0,
        ;
    }
}

/// The middle of a cell maps back to that cell, on a board whose cells have
/// an extent.
pub proof fn lemma_center_maps_back(board: BoardView, coordinates: Coordinates)
    requires
        board.wf(),
        in_range(board.grid, coordinates),
        board.tile_size > 0,
    ensures
        cell_under(
            board.bounds,
            board.tile_size,
            center_x(board, coordinates),
            center_y(board, coordinates),
        ) == Some(coordinates),
{
    lemma_center_in_bounds(board, coordinates);
    let tile_size = board.tile_size as int;
    lemma_div_multiples_vanish_fancy(coordinates.y as int, tile_size / 2, tile_size);
    lemma_div_multiples_vanish_fancy(coordinates.x as int, tile_size / 2, tile_size);
    assert(coordinates.y * tile_size == tile_size * coordinates.y) by (nonlinear_arith);
    assert(coordinates.x * tile_size == tile_size * coordinates.x) by (nonlinear_arith);
}

/// A pointer whose place on the screen is outside the bounding box is over no
/// cell, and the cell that a pointer is over is always a cell of the board.
/// On a board whose every cell has coordinates, a pointer strictly inside the
/// box is over a cell.
pub proof fn lemma_click_respects_bounds(
    board: BoardView,
    window_width: u32,
    window_height: u32,
    position: Position,
)
    requires
        board.wf(),
    ensures
        !board.bounds.contains(
            screen_x(window_width, position.x as int),
            screen_y(window_height, position.y as int),
        ) ==> cell_clicked(board, window_width, window_height, position) is None,
        board.grid.len() <= u16::MAX + 1 && board.bounds.strictly_contains(
            screen_x(window_width, position.x as int),
            screen_y(window_height, position.y as int),
        ) ==> cell_clicked(board, window_width, window_height, position) is Some,
        cell_clicked(board, window_width, window_height, position) is Some ==> in_range(
            board.grid,
            cell_clicked(board, window_width, window_height, position)->Some_0,
        ),
{
    let x = screen_x(window_width, position.x as int);
    let y = screen_y(window_height, position.y as int);
    if board.grid.len() <= u16::MAX + 1 && board.bounds.strictly_contains(x, y) {
        let side = board.grid.len() as int;
        let tile_size = board.tile_size as int;
        assert(tile_size > 0) by (nonlinear_arith)
            requires
                side * tile_size > 0,
                side >= 1,
        ;
        lemma_cell_under_respects_bounds(board.bounds, board.tile_size, side, x, y);
    }
}

} // verus!

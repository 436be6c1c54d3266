use vstd::prelude::*;
use vstd::arithmetic::div_mod::{lemma_div_pos_is_pos, lemma_multiply_divide_lt};
use crate::tile::Coordinates;

verus! {

/// A point of the screen, in whole units of length. `x` grows to the right.
#[derive(Debug, Clone, Copy, PartialEq, Eq, Hash, Structural)]
pub struct Position {
    pub x: i32,
    pub y: i32,
}

/// A square on the screen: the corner with the smallest `x` and `y`, and the
/// length of a side.
#[derive(Debug, Clone, Copy, PartialEq, Eq, Hash, Structural)]
pub struct Bounds2 {
    pub position: Position,
    pub size: u32,
}

impl Bounds2 {
    /// The point `(x, y)` lies in the square, its edges included.
    pub open spec fn contains(&self, x: int, y: int) -> bool {
        &&& self.position.x <= x <= self.position.x + self.size
        &&& self.position.y <= y <= self.position.y + self.size
    }

    /// The point `(x, y)` lies in the square and on none of its edges.
    pub open spec fn strictly_contains(&self, x: int, y: int) -> bool {
        &&& self.position.x < x < self.position.x + self.size
        &&& self.position.y < y < self.position.y + self.size
    }

    /// Whether `coords` lies in the square, its edges included.
    pub fn in_bounds(&self, coords: Position) -> (inside: bool)
        ensures
            inside == self.contains(coords.x as int, coords.y as int),
    {
        self.holds(coords.x as i64, coords.y as i64)
    }

    pub(crate) fn holds(&self, x: i64, y: i64) -> (inside: bool)
        ensures
            inside == self.contains(x as int, y as int),
    {
        let left: i64 = self.position.x as i64;
        let bottom: i64 = self.position.y as i64;
        let side: i64 = self.size as i64;
        x >= left && x <= left + side && y >= bottom && y <= bottom + side
    }
}

/// The cell that covers the point `(x, y)` when cells of side `cell_size` are
/// laid out from the corner of `bounds`: the row is the distance from that
/// corner along `y`, the column the distance along `x`, each divided by
/// `cell_size` and cut off to a whole number. There is none when the point
/// lies outside `bounds`, when cells have no extent, and when the row or the
/// column is too large for a coordinate.
pub open spec fn cell_under(bounds: Bounds2, cell_size: u32, x: int, y: int) -> Option<
    Coordinates,
> {
    let row = (y - bounds.position.y) / (cell_size as int);
    let column = (x - bounds.position.x) / (cell_size as int);
    if cell_size > 0 && bounds.contains(x, y) && row <= u16::MAX && column <= u16::MAX {
        Some(Coordinates { x: row as u16, y: column as u16 })
    } else {
        None
    }
}

pub(crate) fn locate(bounds: &Bounds2, cell_size: u32, x: i64, y: i64) -> (cell: Option<
    Coordinates,
>)
    ensures
        cell == cell_under(*bounds, cell_size, x as int, y as int),
{
    if cell_size == 0 || !bounds.holds(x, y) {
        return None;
    }
    let from_left: u64 = (x - bounds.position.x as i64) as u64;
    let from_bottom: u64 = (y - bounds.position.y as i64) as u64;
    let row: u64 = from_bottom / (cell_size as u64);
    let column: u64 = from_left / (cell_size as u64);
    if row > u16::MAX as u64 || column > u16::MAX as u64 {
        return None;
    }
    Some(Coordinates { x: row as u16, y: column as u16 })
}

/// Maps a pointer position to the cell it covers, if it covers one.
pub fn pixel_to_coordinates(bounds: &Bounds2, cell_size: u32, pointer: Position) -> (cell:
    Option<Coordinates>)
    ensures
        cell == cell_under(*bounds, cell_size, pointer.x as int, pointer.y as int),
{
    locate(bounds, cell_size, pointer.x as i64, pointer.y as i64)
}

/// A pointer outside the bounding box covers no cell. Where `side` cells per
/// row and column fill the box, a pointer strictly inside it covers a cell
/// whose row and column are both below `side`.
pub proof fn lemma_cell_under_respects_bounds(
    bounds: Bounds2,
    cell_size: u32,
    side: int,
    x: int,
    y: int,
)
    requires
        cell_size > 0,
        0 < side <= u16::MAX + 1,
        bounds.size <= side * cell_size,
    ensures
        !bounds.contains(x, y) ==> cell_under(bounds, cell_size, x, y) is None,
        bounds.strictly_contains(x, y) ==> cell_under(bounds, cell_size, x, y) is Some
            && cell_under(bounds, cell_size, x, y)->Some_0.x < side && cell_under(
            bounds,
            cell_size,
            x,
            y,
        )->Some_0.y < side,
{
    if bounds.strictly_contains(x, y) {
        let from_left = x - bounds.position.x;
        let from_bottom = y - bounds.position.y;
        lemma_div_pos_is_pos(from_left, cell_size as int);
        lemma_div_pos_is_pos(from_bottom, cell_size as int);
        assert(cell_size * side == side * cell_size) by (nonlinear_arith);
        lemma_multiply_divide_lt(from_left, cell_size as int, side);
        lemma_multiply_divide_lt(from_bottom, cell_size as int, side);
    }
}

} // verus!

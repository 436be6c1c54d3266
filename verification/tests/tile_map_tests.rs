use tictactoe::error::GameError;
use tictactoe::outcome::MatchOutcome;
use tictactoe::tile::{Coordinates, Tile};
use tictactoe::tile_map::TileMap;

fn at(x: u16, y: u16) -> Coordinates {
    Coordinates { x, y }
}

fn filled(rows: &[&[Tile]]) -> TileMap {
    let mut map = TileMap::empty(rows.len() as u32).unwrap();
    for (x, row) in rows.iter().enumerate() {
        for (y, tile) in row.iter().enumerate() {
            if *tile != Tile::Empty {
                map.set_cell(at(x as u16, y as u16), *tile).unwrap();
            }
        }
    }
    map
}

const E: Tile = Tile::Empty;
const X: Tile = Tile::X;
const O: Tile = Tile::O;

#[test]
fn empty_board_has_side_times_side_empty_cells() {
    for side in 1..=8u32 {
        let map = TileMap::empty(side).unwrap();
        assert_eq!(map.size(), side);
        let mut cells = 0;
        for x in 0..side as u16 {
            for y in 0..side as u16 {
                assert_eq!(map.cell_at(at(x, y)), Ok(Tile::Empty));
                cells += 1;
            }
        }
        assert_eq!(cells, side * side);
        assert_eq!(map.cell_at(at(side as u16, 0)), Err(GameError::OutOfBounds));
        assert_eq!(map.cell_at(at(0, side as u16)), Err(GameError::OutOfBounds));
    }
}

#[test]
fn empty_board_of_no_size_is_refused() {
    assert!(matches!(TileMap::empty(0), Err(GameError::InvalidSize)));
}

#[test]
fn cell_at_reads_what_set_cell_wrote() {
    let mut map = TileMap::empty(3).unwrap();
    assert_eq!(map.set_cell(at(1, 2), Tile::X), Ok(()));
    assert_eq!(map.cell_at(at(1, 2)), Ok(Tile::X));
    assert_eq!(map.cell_at(at(2, 1)), Ok(Tile::Empty));
    assert_eq!(map.cell_at(at(0, 0)), Ok(Tile::Empty));
}

#[test]
fn set_cell_refuses_coordinates_off_the_board() {
    let mut map = TileMap::empty(3).unwrap();
    let before = map.render_as_text();
    assert_eq!(map.set_cell(at(3, 0), Tile::X), Err(GameError::OutOfBounds));
    assert_eq!(map.set_cell(at(0, 3), Tile::O), Err(GameError::OutOfBounds));
    assert_eq!(map.set_cell(at(u16::MAX, u16::MAX), Tile::O), Err(GameError::OutOfBounds));
    assert_eq!(map.render_as_text(), before);
}

#[test]
fn set_cell_refuses_an_occupied_cell() {
    let mut map = TileMap::empty(3).unwrap();
    map.set_cell(at(1, 1), Tile::X).unwrap();
    let before = map.render_as_text();
    assert_eq!(map.set_cell(at(1, 1), Tile::O), Err(GameError::CellOccupied));
    assert_eq!(map.set_cell(at(1, 1), Tile::X), Err(GameError::CellOccupied));
    assert_eq!(map.cell_at(at(1, 1)), Ok(Tile::X));
    assert_eq!(map.render_as_text(), before);
}

#[test]
fn render_as_text_writes_one_line_per_row() {
    let map = filled(&[&[X, E], &[O, X]]);
    assert_eq!(map.render_as_text(), "X Empty \nO X \n\n");
    let one = TileMap::empty(1).unwrap();
    assert_eq!(one.render_as_text(), "Empty \n\n");
}

#[test]
fn empty_board_is_in_progress() {
    for side in 1..=8u32 {
        assert_eq!(TileMap::empty(side).unwrap().outcome(), MatchOutcome::InProgress);
    }
}

#[test]
fn a_full_row_wins() {
    let map = filled(&[&[O, E, O], &[X, X, X], &[E, O, E]]);
    assert!(map.holds_line(X));
    assert!(!map.holds_line(O));
    assert_eq!(map.outcome(), MatchOutcome::Win(Tile::X));
}

#[test]
fn a_full_column_wins() {
    let map = filled(&[&[X, E, O], &[X, X, O], &[E, E, O]]);
    assert_eq!(map.outcome(), MatchOutcome::Win(Tile::O));
}

#[test]
fn the_main_diagonal_wins() {
    let map = filled(&[&[O, X, E], &[X, O, E], &[X, E, O]]);
    assert_eq!(map.outcome(), MatchOutcome::Win(Tile::O));
}

#[test]
fn the_other_diagonal_wins() {
    let map = filled(&[&[O, O, X], &[E, X, E], &[X, E, E]]);
    assert_eq!(map.outcome(), MatchOutcome::Win(Tile::X));
}

#[test]
fn a_full_board_without_a_line_is_a_draw() {
    let map = filled(&[&[X, O, X], &[X, O, O], &[O, X, X]]);
    assert!(map.full());
    assert!(!map.holds_line(X));
    assert!(!map.holds_line(O));
    assert_eq!(map.outcome(), MatchOutcome::Draw);
}

#[test]
fn a_board_with_a_free_cell_and_no_line_is_in_progress() {
    let map = filled(&[&[X, O, X], &[X, O, O], &[O, X, E]]);
    assert!(!map.full());
    assert_eq!(map.outcome(), MatchOutcome::InProgress);
}

#[test]
fn three_in_a_row_does_not_win_on_a_board_of_four() {
    let map = filled(&[&[X, X, X, E], &[O, O, E, E], &[E, E, E, E], &[E, E, E, O]]);
    assert_eq!(map.outcome(), MatchOutcome::InProgress);
    let map = filled(&[&[X, X, X, X], &[O, O, E, E], &[E, E, E, E], &[E, E, E, O]]);
    assert_eq!(map.outcome(), MatchOutcome::Win(Tile::X));
}

#[test]
fn four_on_the_other_diagonal_win_on_a_board_of_four() {
    let map = filled(&[&[X, X, E, O], &[X, E, O, E], &[E, O, E, E], &[O, E, E, X]]);
    assert_eq!(map.outcome(), MatchOutcome::Win(Tile::O));
}

#[test]
fn a_line_of_empty_cells_is_no_win() {
    let map = filled(&[&[E, E, E], &[X, O, X], &[O, X, O]]);
    assert!(map.holds_line(E));
    assert_eq!(map.outcome(), MatchOutcome::InProgress);
}

#[test]
fn the_single_cell_board_is_won_by_the_first_mark() {
    let mut map = TileMap::empty(1).unwrap();
    map.set_cell(at(0, 0), Tile::O).unwrap();
    assert_eq!(map.outcome(), MatchOutcome::Win(Tile::O));
}

use bevy::prelude::Entity;
use tictactoe::board::Board;
use tictactoe::error::GameError;
use tictactoe::geometry::{pixel_to_coordinates, Bounds2, Position};
use tictactoe::tile::{Coordinates, Tile};

fn at(x: u16, y: u16) -> Coordinates {
    Coordinates { x, y }
}

fn point(x: i32, y: i32) -> Position {
    Position { x, y }
}

fn square() -> Bounds2 {
    Bounds2 { position: point(-300, -300), size: 600 }
}

#[test]
fn in_bounds_counts_the_edges_in() {
    let bounds = square();
    assert!(bounds.in_bounds(point(0, 0)));
    assert!(bounds.in_bounds(point(-300, -300)));
    assert!(bounds.in_bounds(point(300, 300)));
    assert!(bounds.in_bounds(point(-300, 300)));
    assert!(!bounds.in_bounds(point(-301, 0)));
    assert!(!bounds.in_bounds(point(301, 0)));
    assert!(!bounds.in_bounds(point(0, -301)));
    assert!(!bounds.in_bounds(point(0, 301)));
}

#[test]
fn in_bounds_does_not_wrap_at_the_end_of_the_range() {
    let bounds = Bounds2 { position: point(i32::MAX - 1, i32::MIN), size: u32::MAX };
    assert!(bounds.in_bounds(point(i32::MAX, i32::MAX)));
    assert!(!bounds.in_bounds(point(i32::MIN, 0)));
}

#[test]
fn pixel_to_coordinates_is_none_outside_the_box() {
    let bounds = square();
    let outside = [point(-301, 0), point(301, 0), point(0, -301), point(0, 301), point(-1000, 1000)];
    for pointer in outside {
        assert_eq!(pixel_to_coordinates(&bounds, 200, pointer), None);
    }
}

#[test]
fn pixel_to_coordinates_is_a_cell_of_the_board_inside_the_box() {
    let bounds = square();
    for x in -299..300 {
        for y in [-299, -101, -100, 0, 99, 100, 299] {
            let cell = pixel_to_coordinates(&bounds, 200, point(x, y)).unwrap();
            assert!(cell.x < 3 && cell.y < 3);
        }
    }
}

#[test]
fn pixel_to_coordinates_takes_the_row_from_y_and_the_column_from_x() {
    let bounds = square();
    assert_eq!(pixel_to_coordinates(&bounds, 200, point(-300, -300)), Some(at(0, 0)));
    assert_eq!(pixel_to_coordinates(&bounds, 200, point(250, -250)), Some(at(0, 2)));
    assert_eq!(pixel_to_coordinates(&bounds, 200, point(-250, 250)), Some(at(2, 0)));
    assert_eq!(pixel_to_coordinates(&bounds, 200, point(0, 120)), Some(at(2, 1)));
}

#[test]
fn pixel_to_coordinates_cuts_off_and_does_not_round() {
    let bounds = square();
    assert_eq!(pixel_to_coordinates(&bounds, 200, point(-101, -101)), Some(at(0, 0)));
    assert_eq!(pixel_to_coordinates(&bounds, 200, point(-100, -100)), Some(at(1, 1)));
    assert_eq!(pixel_to_coordinates(&bounds, 200, point(99, 99)), Some(at(1, 1)));
    assert_eq!(pixel_to_coordinates(&bounds, 200, point(100, 100)), Some(at(2, 2)));
    assert_eq!(pixel_to_coordinates(&bounds, 200, point(299, 299)), Some(at(2, 2)));
}

#[test]
fn pixel_to_coordinates_on_the_far_edge_is_past_the_last_cell() {
    let bounds = square();
    assert_eq!(pixel_to_coordinates(&bounds, 200, point(300, 300)), Some(at(3, 3)));
}

#[test]
fn pixel_to_coordinates_without_cell_extent_is_none() {
    assert_eq!(pixel_to_coordinates(&square(), 0, point(0, 0)), None);
}

#[test]
fn pixel_to_coordinates_is_none_where_no_coordinate_is_large_enough() {
    let bounds = Bounds2 { position: point(0, 0), size: 100_000 };
    assert_eq!(pixel_to_coordinates(&bounds, 1, point(65_535, 0)), Some(at(0, 65_535)));
    assert_eq!(pixel_to_coordinates(&bounds, 1, point(65_536, 0)), None);
    assert_eq!(pixel_to_coordinates(&bounds, 1, point(0, 65_536)), None);
}

#[test]
fn a_new_board_is_laid_out_around_the_origin() {
    let board = Board::new(3, 600).unwrap();
    assert_eq!(board.tile_size(), 200);
    assert_eq!(board.bounds(), square());
    assert_eq!(board.tile_map().size(), 3);
    assert_eq!(board.tile_map().cell_at(at(2, 2)), Ok(Tile::Empty));
    let board = Board::new(7, 600).unwrap();
    assert_eq!(board.tile_size(), 85);
    assert_eq!(board.bounds(), Bounds2 { position: point(-300, -300), size: 595 });
    let board = Board::new(4, 3).unwrap();
    assert_eq!(board.tile_size(), 0);
    assert_eq!(board.bounds(), Bounds2 { position: point(-1, -1), size: 0 });
}

#[test]
fn a_board_of_no_size_is_refused() {
    assert!(matches!(Board::new(0, 600), Err(GameError::InvalidSize)));
}

#[test]
fn mouse_position_turns_the_window_upside_down() {
    let board = Board::new(3, 600).unwrap();
    // In a window of 1280 by 720 the bounding box spans 340..=940 along x and
    // 60..=660 along y; the first row is the one with the largest window y.
    assert_eq!(board.mouse_position(1280, 720, point(340, 660)), Some(at(0, 0)));
    assert_eq!(board.mouse_position(1280, 720, point(939, 660)), Some(at(0, 2)));
    assert_eq!(board.mouse_position(1280, 720, point(340, 61)), Some(at(2, 0)));
    assert_eq!(board.mouse_position(1280, 720, point(640, 360)), Some(at(1, 1)));
    assert_eq!(board.mouse_position(1280, 720, point(640, 461)), Some(at(0, 1)));
    assert_eq!(board.mouse_position(1280, 720, point(640, 460)), Some(at(1, 1)));
}

#[test]
fn mouse_position_is_none_off_the_board() {
    let board = Board::new(3, 600).unwrap();
    assert_eq!(board.mouse_position(1280, 720, point(339, 360)), None);
    assert_eq!(board.mouse_position(1280, 720, point(941, 360)), None);
    assert_eq!(board.mouse_position(1280, 720, point(640, 59)), None);
    assert_eq!(board.mouse_position(1280, 720, point(640, 661)), None);
    assert_eq!(board.mouse_position(1280, 720, point(i32::MIN, i32::MAX)), None);
    assert_eq!(board.mouse_position(u32::MAX, u32::MAX, point(i32::MAX, i32::MIN)), None);
}

#[test]
fn mouse_position_on_the_far_edge_is_none() {
    let board = Board::new(3, 600).unwrap();
    assert_eq!(board.mouse_position(1280, 720, point(940, 360)), None);
    assert_eq!(board.mouse_position(1280, 720, point(640, 60)), None);
}

#[test]
fn mouse_position_is_a_cell_of_the_board_strictly_inside_the_box() {
    for side in 1..=8u32 {
        let board = Board::new(side, 600).unwrap();
        let bounds = board.bounds();
        let last = bounds.position.x + bounds.size as i32;
        for x in (bounds.position.x + 1)..last {
            let cell = board.mouse_position(0, 0, point(x, -x)).unwrap();
            assert!((cell.x as u32) < side && (cell.y as u32) < side);
            assert_eq!(cell.x, cell.y);
        }
    }
}

#[test]
fn tile_center_is_the_middle_of_the_cell() {
    let board = Board::new(3, 600).unwrap();
    assert_eq!(board.tile_center(at(0, 0)), Ok(point(-200, -200)));
    assert_eq!(board.tile_center(at(0, 2)), Ok(point(200, -200)));
    assert_eq!(board.tile_center(at(2, 1)), Ok(point(0, 200)));
    assert_eq!(board.tile_center(at(3, 0)), Err(GameError::OutOfBounds));
    assert_eq!(board.tile_center(at(0, 3)), Err(GameError::OutOfBounds));
}

#[test]
fn tile_center_maps_back_to_its_cell() {
    for side in 1..=8u32 {
        let board = Board::new(side, 600).unwrap();
        for x in 0..side as u16 {
            for y in 0..side as u16 {
                let center = board.tile_center(at(x, y)).unwrap();
                assert_eq!(
                    pixel_to_coordinates(&board.bounds(), board.tile_size(), center),
                    Some(at(x, y))
                );
            }
        }
    }
}

#[test]
fn get_tile_finds_what_attach_tile_stored() {
    let mut board = Board::new(3, 600).unwrap();
    let first = Entity::from_raw(7);
    let second = Entity::from_raw(8);
    assert_eq!(board.get_tile(&at(1, 2)), None);
    assert_eq!(board.attach_tile(at(1, 2), first), Ok(None));
    assert_eq!(board.get_tile(&at(1, 2)), Some(&first));
    assert_eq!(board.get_tile(&at(2, 1)), None);
    assert_eq!(board.attach_tile(at(2, 1), second), Ok(None));
    assert_eq!(board.get_tile(&at(1, 2)), Some(&first));
    assert_eq!(board.get_tile(&at(2, 1)), Some(&second));
}

#[test]
fn attach_tile_hands_back_the_entity_it_replaces() {
    let mut board = Board::new(3, 600).unwrap();
    let first = Entity::from_raw(1);
    let second = Entity::from_raw(2);
    assert_eq!(board.attach_tile(at(0, 0), first), Ok(None));
    assert_eq!(board.attach_tile(at(0, 0), second), Ok(Some(first)));
    assert_eq!(board.get_tile(&at(0, 0)), Some(&second));
}

#[test]
fn attach_tile_refuses_coordinates_off_the_board() {
    let mut board = Board::new(3, 600).unwrap();
    let entity = Entity::from_raw(1);
    assert_eq!(board.attach_tile(at(3, 0), entity), Err(GameError::OutOfBounds));
    assert_eq!(board.attach_tile(at(0, 3), entity), Err(GameError::OutOfBounds));
    assert_eq!(board.get_tile(&at(3, 0)), None);
    assert_eq!(board.get_tile(&at(0, 3)), None);
}

#[test]
fn a_large_board_keeps_its_entities_too() {
    let mut board = Board::new(300, 600).unwrap();
    for x in 0..300u16 {
        assert_eq!(board.attach_tile(at(x, 299 - x), Entity::from_raw(x as u32)), Ok(None));
    }
    for x in 0..300u16 {
        assert_eq!(board.get_tile(&at(x, 299 - x)), Some(&Entity::from_raw(x as u32)));
    }
}

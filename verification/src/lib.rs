//! The rules of an N-by-N tic-tac-toe match, the menu that configures it, and
//! the mapping from pointer positions to board cells.

pub mod board;
pub mod constants;
pub mod error;
pub mod game;
pub mod geometry;
pub mod menu;
pub mod mode;
pub mod outcome;
pub mod play;
pub mod style;
pub mod tile;
pub mod tile_map;
pub mod tile_table;

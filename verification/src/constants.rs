use vstd::prelude::*;

verus! {

/// The side of the board that a match starts with unless another is chosen.
pub const DEFAULT_BOARD_SIZE: u32 = 3;

/// The search depth that is set unless another is chosen.
pub const DEFAULT_AI_DEPTH: u32 = 4;

/// The smallest value that the menu offers for a setting.
pub const FIRST_OPTION: u32 = 3;

/// The largest value that the menu offers for a setting.
pub const LAST_OPTION: u32 = 8;

/// The side of the square of the screen in which the board is laid out.
pub const LENGTH: u32 = 600;

} // verus!

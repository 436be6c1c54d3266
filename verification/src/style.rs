use vstd::prelude::*;
use crate::tile::Tile;

verus! {

/// What the pointer does to a button.
#[derive(Debug, Clone, Copy, PartialEq, Eq, Hash, Structural)]
pub enum Interaction {
    Clicked,
    Hovered,
    /// The pointer is elsewhere.
    Idle,
}

/// How a button is shown.
#[derive(Debug, Clone, Copy, PartialEq, Eq, Hash, Structural)]
pub enum ButtonLook {
    Normal,
    Hovered,
    HoveredPressed,
    Pressed,
}

/// How a button is shown, given what the pointer does to it and whether it
/// stands for the value that is set. A button that is clicked looks pressed,
/// and so does the button of the set value while the pointer is elsewhere.
pub open spec fn look_of(interaction: Interaction, selected: bool) -> ButtonLook {
    match (interaction, selected) {
        (Interaction::Clicked, _) => ButtonLook::Pressed,
        (Interaction::Idle, true) => ButtonLook::Pressed,
        (Interaction::Hovered, true) => ButtonLook::HoveredPressed,
        (Interaction::Hovered, false) => ButtonLook::Hovered,
        (Interaction::Idle, false) => ButtonLook::Normal,
    }
}

/// Picks the look of a button.
pub fn button_look(interaction: Interaction, selected: bool) -> (look: ButtonLook)
    ensures
        look == look_of(interaction, selected),
{
    match interaction {
        Interaction::Clicked => ButtonLook::Pressed,
        Interaction::Hovered => if selected {
            ButtonLook::HoveredPressed
        } else {
            ButtonLook::Hovered
        },
        Interaction::Idle => if selected {
            ButtonLook::Pressed
        } else {
            ButtonLook::Normal
        },
    }
}

/// The colour in which a mark is drawn.
#[derive(Debug, Clone, Copy, PartialEq, Eq, Hash, Structural)]
pub enum PieceColor {
    Red,
    Blue,
    White,
}

/// The colour of a mark: red for X, blue for O, white for a cell without one.
pub open spec fn color_of(tile: Tile) -> PieceColor {
    match tile {
        Tile::X => PieceColor::Red,
        Tile::O => PieceColor::Blue,
        Tile::Empty => PieceColor::White,
    }
}

/// Picks the colour in which `tile` is drawn.
pub fn piece_color(tile: Tile) -> (color: PieceColor)
    ensures
        color == color_of(tile),
{
    match tile {
        Tile::X => PieceColor::Red,
        Tile::O => PieceColor::Blue,
        Tile::Empty => PieceColor::White,
    }
}

} // verus!

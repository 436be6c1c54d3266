use vstd::prelude::*;
use crate::constants::{FIRST_OPTION, LAST_OPTION};
use crate::error::GameError;

verus! {

/// The side of the board, as the menu sets it.
#[derive(Debug, Clone, Copy, PartialEq, Eq, Hash, Structural)]
pub struct MatrixSize(pub u32);

/// The depth of the search, as the menu sets it.
#[derive(Debug, Clone, Copy, PartialEq, Eq, Hash, Structural)]
pub struct AiDepth(pub u32);

/// The screen that the menu shows.
#[derive(Debug, Clone, Copy, PartialEq, Eq, Hash, Structural)]
pub enum MenuState {
    Main,
    Settings,
    SettingsMatrixSize,
    SettingsAiDepth,
    /// No screen: a match is being played.
    Disabled,
}

/// What a button asks for when it is pressed.
#[derive(Debug, Clone, Copy, PartialEq, Eq, Hash, Structural)]
pub enum MenuButtonAction {
    PlayAi,
    PlayPlayers,
    Settings,
    SettingsMatrixSize,
    SettingsAiDepth,
    BackToMainMenu,
    BackToSettings,
    Quit,
}

/// What pressing a button brought about.
#[derive(Debug, Clone, Copy, PartialEq, Eq, Hash, Structural)]
pub enum ActionEffect {
    /// Nothing: the button does nothing where the menu stands.
    Ignored,
    /// The menu shows another screen.
    ScreenChanged,
    /// The menu is left and a match begins.
    MatchStarted,
    /// The match is given up and the menu shows its first screen.
    MatchEnded,
    /// The program is asked to end.
    QuitRequested,
}

/// Where the menu goes from `state` when `action` is asked for, and what that
/// brings about. An action that has no button in `state` leaves the menu
/// where it is.
pub open spec fn menu_step(state: MenuState, action: MenuButtonAction) -> (
    MenuState,
    ActionEffect,
) {
    match (state, action) {
        (MenuState::Main, MenuButtonAction::PlayAi) => (
            MenuState::Disabled,
            ActionEffect::MatchStarted,
        ),
        (MenuState::Main, MenuButtonAction::PlayPlayers) => (
            MenuState::Disabled,
            ActionEffect::MatchStarted,
        ),
        (MenuState::Main, MenuButtonAction::Settings) => (
            MenuState::Settings,
            ActionEffect::ScreenChanged,
        ),
        (MenuState::Main, MenuButtonAction::Quit) => (MenuState::Main, ActionEffect::QuitRequested),
        (MenuState::Settings, MenuButtonAction::SettingsMatrixSize) => (
            MenuState::SettingsMatrixSize,
            ActionEffect::ScreenChanged,
        ),
        (MenuState::Settings, MenuButtonAction::SettingsAiDepth) => (
            MenuState::SettingsAiDepth,
            ActionEffect::ScreenChanged,
        ),
        (MenuState::Settings, MenuButtonAction::BackToMainMenu) => (
            MenuState::Main,
            ActionEffect::ScreenChanged,
        ),
        (MenuState::SettingsMatrixSize, MenuButtonAction::BackToSettings) => (
            MenuState::Settings,
            ActionEffect::ScreenChanged,
        ),
        (MenuState::SettingsAiDepth, MenuButtonAction::BackToSettings) => (
            MenuState::Settings,
            ActionEffect::ScreenChanged,
        ),
        (MenuState::Disabled, MenuButtonAction::BackToMainMenu) => (
            MenuState::Main,
            ActionEffect::MatchEnded,
        ),
        _ => (state, ActionEffect::Ignored),
    }
}

/// Takes the menu from `state` to where `action` leads, and says what that
/// brings about.
pub fn menu_action(state: MenuState, action: MenuButtonAction) -> (step: (MenuState, ActionEffect))
    ensures
        step == menu_step(state, action),
{
    match state {
        MenuState::Main => match action {
            MenuButtonAction::PlayAi | MenuButtonAction::PlayPlayers => (
                MenuState::Disabled,
                ActionEffect::MatchStarted,
            ),
            MenuButtonAction::Settings => (MenuState::Settings, ActionEffect::ScreenChanged),
            MenuButtonAction::Quit => (MenuState::Main, ActionEffect::QuitRequested),
            _ => (state, ActionEffect::Ignored),
        },
        MenuState::Settings => match action {
            MenuButtonAction::SettingsMatrixSize => (
                MenuState::SettingsMatrixSize,
                ActionEffect::ScreenChanged,
            ),
            MenuButtonAction::SettingsAiDepth => (
                MenuState::SettingsAiDepth,
                ActionEffect::ScreenChanged,
            ),
            MenuButtonAction::BackToMainMenu => (MenuState::Main, ActionEffect::ScreenChanged),
            _ => (state, ActionEffect::Ignored),
        },
        MenuState::SettingsMatrixSize | MenuState::SettingsAiDepth => match action {
            MenuButtonAction::BackToSettings => (MenuState::Settings, ActionEffect::ScreenChanged),
            _ => (state, ActionEffect::Ignored),
        },
        MenuState::Disabled => match action {
            MenuButtonAction::BackToMainMenu => (MenuState::Main, ActionEffect::MatchEnded),
            _ => (state, ActionEffect::Ignored),
        },
    }
}

/// The buttons that `state` shows, from the first to the last. While a match
/// is played the one button is the way back to the menu.
pub open spec fn buttons_of(state: MenuState) -> Seq<MenuButtonAction> {
    match state {
        MenuState::Main => seq![
            MenuButtonAction::PlayAi,
            MenuButtonAction::PlayPlayers,
            MenuButtonAction::Settings,
            MenuButtonAction::Quit,
        ],
        MenuState::Settings => seq![
            MenuButtonAction::SettingsAiDepth,
            MenuButtonAction::SettingsMatrixSize,
            MenuButtonAction::BackToMainMenu,
        ],
        MenuState::SettingsMatrixSize => seq![MenuButtonAction::BackToSettings],
        MenuState::SettingsAiDepth => seq![MenuButtonAction::BackToSettings],
        MenuState::Disabled => seq![MenuButtonAction::BackToMainMenu],
    }
}

/// The buttons to put on the screen for `state`, in their order.
pub fn screen_buttons(state: MenuState) -> (buttons: Vec<MenuButtonAction>)
    ensures
        buttons@ == buttons_of(state),
{
    let mut buttons: Vec<MenuButtonAction> = Vec::new();
    match state {
        MenuState::Main => {
            buttons.push(MenuButtonAction::PlayAi);
            buttons.push(MenuButtonAction::PlayPlayers);
            buttons.push(MenuButtonAction::Settings);
            buttons.push(MenuButtonAction::Quit);
        },
        MenuState::Settings => {
            buttons.push(MenuButtonAction::SettingsAiDepth);
            buttons.push(MenuButtonAction::SettingsMatrixSize);
            buttons.push(MenuButtonAction::BackToMainMenu);
        },
        MenuState::SettingsMatrixSize | MenuState::SettingsAiDepth => {
            buttons.push(MenuButtonAction::BackToSettings);
        },
        MenuState::Disabled => {
            buttons.push(MenuButtonAction::BackToMainMenu);
        },
    }
    assert(buttons@ =~= buttons_of(state));
    buttons
}

/// A screen shows a button for exactly the actions that do something there.
pub proof fn lemma_buttons_are_the_live_actions(state: MenuState, action: MenuButtonAction)
    ensures
        buttons_of(state).contains(action) <==> menu_step(state, action).1
            != ActionEffect::Ignored,
{
    let buttons = buttons_of(state);
    if menu_step(state, action).1 != ActionEffect::Ignored {
        match state {
            MenuState::Main => {
                assert(buttons[0] == MenuButtonAction::PlayAi);
                assert(buttons[1] == MenuButtonAction::PlayPlayers);
                assert(buttons[2] == MenuButtonAction::Settings);
                assert(buttons[3] == MenuButtonAction::Quit);
            },
            MenuState::Settings => {
                assert(buttons[0] == MenuButtonAction::SettingsAiDepth);
                assert(buttons[1] == MenuButtonAction::SettingsMatrixSize);
                assert(buttons[2] == MenuButtonAction::BackToMainMenu);
            },
            MenuState::SettingsMatrixSize => {
                assert(buttons[0] == MenuButtonAction::BackToSettings);
            },
            MenuState::SettingsAiDepth => {
                assert(buttons[0] == MenuButtonAction::BackToSettings);
            },
            MenuState::Disabled => {
                assert(buttons[0] == MenuButtonAction::BackToMainMenu);
            },
        }
    }
}

/// Whether the menu offers `value` for a setting.
pub open spec fn is_offered(value: u32) -> bool {
    FIRST_OPTION <= value <= LAST_OPTION
}

/// One of the buttons by which a setting is chosen: the value it stands for,
/// and whether it is shown as the one that is set.
#[derive(Debug, Clone, Copy, PartialEq, Eq, Hash, Structural)]
pub struct OptionButton {
    pub value: u32,
    pub selected: bool,
}

/// The buttons for a setting whose value is `current`: one for each value on
/// offer, in rising order, and the one for `current` shown as set.
pub open spec fn options_of(current: u32) -> Seq<OptionButton> {
    Seq::new(
        (LAST_OPTION - FIRST_OPTION + 1) as nat,
        |i: int|
            OptionButton {
                value: (FIRST_OPTION + i) as u32,
                selected: FIRST_OPTION + i == current,
            },
    )
}

/// The buttons to put on the screen for a setting whose value is `current`.
pub fn option_buttons(current: u32) -> (buttons: Vec<OptionButton>)
    ensures
        buttons@ == options_of(current),
{
    let mut buttons: Vec<OptionButton> = Vec::new();
    let mut value: u32 = FIRST_OPTION;
    while value <= LAST_OPTION
        invariant
            FIRST_OPTION <= value <= LAST_OPTION + 1,
            buttons@.len() == value - FIRST_OPTION,
            forall|i: int|
                0 <= i < buttons@.len() ==> #[trigger] buttons@[i] == (OptionButton {
                    value: (FIRST_OPTION + i) as u32,
                    selected: FIRST_OPTION + i == current,
                }),
        decreases LAST_OPTION + 1 - value,
    {
        buttons.push(OptionButton { value, selected: value == current });
        value = value + 1;
    }
    assert(buttons@ =~= options_of(current));
    buttons
}

/// Which button of a setting is no longer shown as set, and which is shown as
/// set in its place.
#[derive(Debug, Clone, Copy, PartialEq, Eq, Hash, Structural)]
pub struct SelectionChange {
    pub deselected: u32,
    pub selected: u32,
}

/// What choosing `choice` does to a setting whose value is `current`: a value
/// that is not on offer is refused, the value that is set already changes
/// nothing, and any other value takes the place of `current`.
pub open spec fn selection(current: u32, choice: u32) -> Result<Option<SelectionChange>, GameError> {
    if !is_offered(choice) {
        Err(GameError::InvalidSize)
    } else if choice == current {
        Ok(None)
    } else {
        Ok(Some(SelectionChange { deselected: current, selected: choice }))
    }
}

/// The value of a setting after `choice` was chosen for it.
pub open spec fn selected_after(current: u32, choice: u32) -> u32 {
    if is_offered(choice) {
        choice
    } else {
        current
    }
}

/// Chooses `choice` for the setting `current`, and says which buttons change
/// their look. A refused choice leaves the setting as it was.
pub fn setting_button(current: &mut u32, choice: u32) -> (result: Result<
    Option<SelectionChange>,
    GameError,
>)
    ensures
        result == selection(*old(current), choice),
        *final(current) == selected_after(*old(current), choice),
{
    if choice < FIRST_OPTION || choice > LAST_OPTION {
        return Err(GameError::InvalidSize);
    }
    if choice == *current {
        return Ok(None);
    }
    let deselected = *current;
    *current = choice;
    Ok(Some(SelectionChange { deselected, selected: choice }))
}

/// Of the buttons of a setting whose value is on offer, exactly one is shown
/// as set: the one for that value.
pub proof fn lemma_one_option_selected(current: u32)
    requires
        is_offered(current),
    ensures
        options_of(current)[current - FIRST_OPTION].selected,
        forall|i: int|
            0 <= i < options_of(current).len() && #[trigger] options_of(current)[i].selected ==> i
                == current - FIRST_OPTION,
{
}

/// Choosing a new value takes the look of the set button from the button of
/// the old value, gives it to the button of the new value, and changes no
/// other button.
pub proof fn lemma_selection_moves_one_mark(current: u32, choice: u32)
    requires
        is_offered(current),
        is_offered(choice),
        choice != current,
    ensures
        selection(current, choice) == Ok::<Option<SelectionChange>, GameError>(
            Some(SelectionChange { deselected: current, selected: choice }),
        ),
        options_of(current)[current - FIRST_OPTION].selected,
        !options_of(selected_after(current, choice))[current - FIRST_OPTION].selected,
        options_of(selected_after(current, choice))[choice - FIRST_OPTION].selected,
        forall|i: int|
            0 <= i < options_of(current).len() && i != current - FIRST_OPTION && i != choice
                - FIRST_OPTION ==> #[trigger] options_of(selected_after(current, choice))[i]
                == options_of(current)[i],
{
}

} // verus!

use vstd::prelude::*;
use bevy::prelude::Entity;
use crate::board::{key_of, BoardView};
use crate::constants::{DEFAULT_AI_DEPTH, DEFAULT_BOARD_SIZE};
use crate::error::GameError;
use crate::game::{
    after_move, click_outcome, fresh_match, ClickOutcome, Match, MatchView, PlayingState,
    WhoseTurn,
};
use crate::geometry::Position;
use crate::menu::{
    is_offered, menu_action, menu_step, selected_after, selection, setting_button, ActionEffect,
    AiDepth, MatrixSize, MenuButtonAction, MenuState, SelectionChange,
};
use crate::outcome::{outcome_of, MatchOutcome};
use crate::tile::Coordinates;
use crate::tile_map::in_range;

verus! {

/// Which of the two is live: the menu or a match.
#[derive(Debug, Clone, Copy, PartialEq, Eq, Hash, Structural)]
pub enum GameState {
    Menu,
    Game,
}

/// What the program is made of: the live side, the screen of the menu, the
/// two settings, and the match while there is one.
pub struct GameView {
    pub state: GameState,
    pub menu: MenuState,
    pub matrix_size: u32,
    pub ai_depth: u32,
    pub session: Option<MatchView>,
}

impl GameView {
    /// The menu shows a screen exactly while it is live, there is a match
    /// exactly while the match is live, the match is well formed, and both
    /// settings hold a value that the menu offers.
    pub open spec fn wf(self) -> bool {
        &&& self.state == GameState::Menu <==> self.menu != MenuState::Disabled
        &&& self.state == GameState::Game <==> self.session is Some
        &&& self.session is Some ==> self.session->Some_0.wf()
        &&& is_offered(self.matrix_size)
        &&& is_offered(self.ai_depth)
    }
}

/// The program as it starts: the first screen of the menu, the settings at
/// their defaults, no match.
pub open spec fn initial_game() -> GameView {
    GameView {
        state: GameState::Menu,
        menu: MenuState::Main,
        matrix_size: DEFAULT_BOARD_SIZE,
        ai_depth: DEFAULT_AI_DEPTH,
        session: None,
    }
}

/// What pressing the button for `action` does. Starting a match leaves the
/// menu and sets up a fresh match on a board of the size that is set; going
/// back from a match drops it and shows the first screen of the menu.
pub open spec fn after_press(before: GameView, action: MenuButtonAction) -> GameView {
    let (menu, effect) = menu_step(before.menu, action);
    match effect {
        ActionEffect::Ignored => before,
        ActionEffect::QuitRequested => before,
        ActionEffect::ScreenChanged => GameView { menu, ..before },
        ActionEffect::MatchStarted => GameView {
            state: GameState::Game,
            menu,
            session: Some(fresh_match(before.matrix_size)),
            ..before
        },
        ActionEffect::MatchEnded => GameView {
            state: GameState::Menu,
            menu,
            session: None,
            ..before
        },
    }
}

/// The menu and the match under one roof. Button presses and choices of a
/// setting go to the menu, clicks on the window to the match; only one of the
/// two is live at a time.
pub struct Game {
    state: GameState,
    menu: MenuState,
    matrix_size: MatrixSize,
    ai_depth: AiDepth,
    session: Option<Match>,
}

impl View for Game {
    type V = GameView;

    closed spec fn view(&self) -> GameView {
        GameView {
            state: self.state,
            menu: self.menu,
            matrix_size: self.matrix_size.0,
            ai_depth: self.ai_depth.0,
            session: match self.session {
                Some(session) => Some(session@),
                None => None,
            },
        }
    }
}

impl Game {
    /// The program is well formed when what it is made of is.
    pub open spec fn wf(&self) -> bool {
        self@.wf()
    }

    /// The program as it starts.
    pub fn new() -> (game: Game)
        ensures
            game.wf(),
            game@ == initial_game(),
    {
        Game {
            state: GameState::Menu,
            menu: MenuState::Main,
            matrix_size: MatrixSize(DEFAULT_BOARD_SIZE),
            ai_depth: AiDepth(DEFAULT_AI_DEPTH),
            session: None,
        }
    }

    /// Which of the menu and the match is live.
    pub fn state(&self) -> (state: GameState)
        ensures
            state == self@.state,
    {
        self.state
    }

    /// The screen that the menu shows.
    pub fn menu_state(&self) -> (menu: MenuState)
        ensures
            menu == self@.menu,
    {
        self.menu
    }

    /// The side of the board that the next match starts with.
    pub fn matrix_size(&self) -> (size: MatrixSize)
        ensures
            size.0 == self@.matrix_size,
    {
        self.matrix_size
    }

    /// The depth of the search that is set.
    pub fn ai_depth(&self) -> (depth: AiDepth)
        ensures
            depth.0 == self@.ai_depth,
    {
        self.ai_depth
    }

    /// The match, while there is one.
    pub fn session(&self) -> (session: Option<&Match>)
        ensures
            session is Some <==> self@.session is Some,
            session is Some ==> session->Some_0@ == self@.session->Some_0,
    {
        self.session.as_ref()
    }

    /// Whether a match takes moves; `Init` while there is no match.
    pub fn playing_state(&self) -> (playing: PlayingState)
        ensures
            playing == (match self@.session {
                Some(session) => session.playing,
                None => PlayingState::Init,
            }),
    {
        match &self.session {
            Some(session) => session.playing_state(),
            None => PlayingState::Init,
        }
    }

    /// Who moves next; nobody while there is no match.
    pub fn whose_turn(&self) -> (turn: WhoseTurn)
        ensures
            turn == (match self@.session {
                Some(session) => session.turn,
                None => WhoseTurn::Noone,
            }),
    {
        match &self.session {
            Some(session) => session.whose_turn(),
            None => WhoseTurn::Noone,
        }
    }

    /// How the match stands, while there is one.
    pub fn outcome(&self) -> (outcome: Option<MatchOutcome>)
        requires
            self.wf(),
        ensures
            outcome == (match self@.session {
                Some(session) => Some(outcome_of(session.board.grid)),
                None => None,
            }),
    {
        match &self.session {
            Some(session) => Some(session.outcome()),
            None => None,
        }
    }

    /// Presses the button for `action` and says what that brought about.
    pub fn press(&mut self, action: MenuButtonAction) -> (effect: ActionEffect)
        requires
            old(self).wf(),
        ensures
            final(self).wf(),
            effect == menu_step(old(self)@.menu, action).1,
            final(self)@ == after_press(old(self)@, action),
            effect == ActionEffect::Ignored || effect == ActionEffect::QuitRequested
                ==> *final(self) == *old(self),
    {
        let (menu, effect) = menu_action(self.menu, action);
        match effect {
            ActionEffect::Ignored => {},
            ActionEffect::QuitRequested => {},
            ActionEffect::ScreenChanged => {
                self.menu = menu;
            },
            ActionEffect::MatchStarted => {
                match Match::new(self.matrix_size.0) {
                    Ok(session) => {
                        self.state = GameState::Game;
                        self.menu = menu;
                        self.session = Some(session);
                    },
                    Err(_) => {
                        assert(false);
                    },
                }
            },
            ActionEffect::MatchEnded => {
                self.state = GameState::Menu;
                self.menu = menu;
                self.session = None;
            },
        }
        effect
    }

    /// Chooses `choice` as the side of the board. The choice counts only on
    /// the screen for that setting; anywhere else nothing happens.
    pub fn select_matrix_size(&mut self, choice: MatrixSize) -> (result: Result<
        Option<SelectionChange>,
        GameError,
    >)
        requires
            old(self).wf(),
        ensures
            final(self).wf(),
            old(self)@.menu != MenuState::SettingsMatrixSize ==> result == Ok::<
                Option<SelectionChange>,
                GameError,
            >(None) && *final(self) == *old(self),
            old(self)@.menu == MenuState::SettingsMatrixSize ==> result == selection(
                old(self)@.matrix_size,
                choice.0,
            ) && final(self)@ == (GameView {
                matrix_size: selected_after(old(self)@.matrix_size, choice.0),
                ..old(self)@
            }),
            result is Err ==> *final(self) == *old(self),
    {
        if self.menu != MenuState::SettingsMatrixSize {
            return Ok(None);
        }
        setting_button(&mut self.matrix_size.0, choice.0)
    }

    /// Chooses `choice` as the depth of the search. The choice counts only on
    /// the screen for that setting; anywhere else nothing happens.
    pub fn select_ai_depth(&mut self, choice: AiDepth) -> (result: Result<
        Option<SelectionChange>,
        GameError,
    >)
        requires
            old(self).wf(),
        ensures
            final(self).wf(),
            old(self)@.menu != MenuState::SettingsAiDepth ==> result == Ok::<
                Option<SelectionChange>,
                GameError,
            >(None) && *final(self) == *old(self),
            old(self)@.menu == MenuState::SettingsAiDepth ==> result == selection(
                old(self)@.ai_depth,
                choice.0,
            ) && final(self)@ == (GameView {
                ai_depth: selected_after(old(self)@.ai_depth, choice.0),
                ..old(self)@
            }),
            result is Err ==> *final(self) == *old(self),
    {
        if self.menu != MenuState::SettingsAiDepth {
            return Ok(None);
        }
        setting_button(&mut self.ai_depth.0, choice.0)
    }

    /// Handles a click at `position` in a window of the given size. While
    /// the menu is live there is no board to click on.
    pub fn click(&mut self, window_width: u32, window_height: u32, position: Position) -> (outcome:
        ClickOutcome)
        requires
            old(self).wf(),
        ensures
            final(self).wf(),
            old(self)@.session is None ==> outcome == ClickOutcome::Missed,
            old(self)@.session is Some ==> outcome == click_outcome(
                old(self)@.session->Some_0,
                window_width,
                window_height,
                position,
            ),
            outcome matches ClickOutcome::Placed { coordinates, .. } ==> after_move(
                old(self)@.session->Some_0,
                coordinates,
            ) is Ok && final(self)@ == (GameView {
                session: Some(after_move(old(self)@.session->Some_0, coordinates)->Ok_0),
                ..old(self)@
            }),
            !(outcome is Placed) ==> *final(self) == *old(self),
    {
        match &mut self.session {
            Some(session) => session.click(window_width, window_height, position),
            None => ClickOutcome::Missed,
        }
    }

    /// Records that `entity` draws the cell at `coordinates` of the board of
    /// the match. While the menu is live there is no board, and no
    /// coordinates name a cell.
    pub fn attach_tile(&mut self, coordinates: Coordinates, entity: Entity) -> (result: Result<
        Option<Entity>,
        GameError,
    >)
        requires
            old(self).wf(),
        ensures
            final(self).wf(),
            old(self)@.session is None || !in_range(
                old(self)@.session->Some_0.board.grid,
                coordinates,
            ) ==> result == Err::<Option<Entity>, GameError>(GameError::OutOfBounds)
                && *final(self) == *old(self),
            old(self)@.session is Some && in_range(
                old(self)@.session->Some_0.board.grid,
                coordinates,
            ) ==> result == Ok::<Option<Entity>, GameError>(
                if old(self)@.session->Some_0.board.entities.contains_key(key_of(coordinates)) {
                    Some(old(self)@.session->Some_0.board.entities[key_of(coordinates)])
                } else {
                    None
                },
            ) && final(self)@ == (GameView {
                session: Some(
                    MatchView {
                        board: BoardView {
                            entities: old(self)@.session->Some_0.board.entities.insert(
                                key_of(coordinates),
                                entity,
                            ),
                            ..old(self)@.session->Some_0.board
                        },
                        ..old(self)@.session->Some_0
                    },
                ),
                ..old(self)@
            }),
    {
        match &mut self.session {
            Some(session) => session.attach_tile(coordinates, entity),
            None => Err(GameError::OutOfBounds),
        }
    }
}

} // verus!

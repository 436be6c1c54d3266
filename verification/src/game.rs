use vstd::prelude::*;
use bevy::prelude::Entity;
use crate::board::{cell_clicked, fresh_board, key_of, Board, BoardView};
use crate::constants::LENGTH;
use crate::error::GameError;
use crate::geometry::Position;
use crate::outcome::{outcome_of, MatchOutcome};
use crate::tile::{Coordinates, Tile};
use crate::tile_map::{in_range, tile_at, with_tile};

verus! {

/// Where a match is in its life.
#[derive(Debug, Clone, Copy, PartialEq, Eq, Hash, Structural)]
pub enum PlayingState {
    /// No match is being played.
    Init,
    /// The match takes moves.
    Playing,
    /// The match is decided and takes no more moves.
    GameOver,
}

/// The player who moves next.
#[derive(Debug, Clone, Copy, PartialEq, Eq, Hash, Structural)]
pub enum WhoseTurn {
    /// Nobody: no match is being played.
    Noone,
    XTurn,
    OTurn,
}

impl WhoseTurn {
    /// The mark that this player puts down.
    pub open spec fn mark_of(self) -> Tile {
        match self {
            WhoseTurn::Noone => Tile::Empty,
            WhoseTurn::XTurn => Tile::X,
            WhoseTurn::OTurn => Tile::O,
        }
    }

    /// The player who moves after this one.
    pub open spec fn other(self) -> WhoseTurn {
        match self {
            WhoseTurn::Noone => WhoseTurn::Noone,
            WhoseTurn::XTurn => WhoseTurn::OTurn,
            WhoseTurn::OTurn => WhoseTurn::XTurn,
        }
    }

    /// The mark that this player puts down; nobody puts down nothing.
    pub fn mark(self) -> (tile: Tile)
        ensures
            tile == self.mark_of(),
    {
        match self {
            WhoseTurn::Noone => Tile::Empty,
            WhoseTurn::XTurn => Tile::X,
            WhoseTurn::OTurn => Tile::O,
        }
    }

    /// The player who moves after this one: X and O take turns.
    pub fn next(self) -> (turn: WhoseTurn)
        ensures
            turn == self.other(),
    {
        match self {
            WhoseTurn::Noone => WhoseTurn::Noone,
            WhoseTurn::XTurn => WhoseTurn::OTurn,
            WhoseTurn::OTurn => WhoseTurn::XTurn,
        }
    }
}

/// What a match is made of: the board, whether the match still takes moves,
/// and who moves next (after the end: who moved last).
pub struct MatchView {
    pub board: BoardView,
    pub playing: PlayingState,
    pub turn: WhoseTurn,
}

impl MatchView {
    /// The board is well formed, a player is to move, and the match is over
    /// exactly when the board shows a win or a draw.
    pub open spec fn wf(self) -> bool {
        &&& self.board.wf()
        &&& self.playing != PlayingState::Init
        &&& self.turn != WhoseTurn::Noone
        &&& self.playing == PlayingState::GameOver <==> outcome_of(self.board.grid)
            != MatchOutcome::InProgress
    }
}

/// The match as it starts: an empty board of `size` by `size` cells, and X
/// to move.
pub open spec fn fresh_match(size: u32) -> MatchView {
    MatchView {
        board: fresh_board(size, LENGTH),
        playing: PlayingState::Playing,
        turn: WhoseTurn::XTurn,
    }
}

/// What a move at `coordinates` does to `before`. A match that is over
/// refuses every move; a match in play refuses coordinates off the board and
/// cells that hold a mark. Otherwise the mover's mark is written, and the
/// match ends if the board now shows a win or a draw; if it does not, the
/// other player is to move.
pub open spec fn after_move(before: MatchView, coordinates: Coordinates) -> Result<
    MatchView,
    GameError,
> {
    if before.playing != PlayingState::Playing {
        Err(GameError::MatchFinished)
    } else if !in_range(before.board.grid, coordinates) {
        Err(GameError::OutOfBounds)
    } else if tile_at(before.board.grid, coordinates) != Tile::Empty {
        Err(GameError::CellOccupied)
    } else {
        let grid = with_tile(before.board.grid, coordinates, before.turn.mark_of());
        let decided = outcome_of(grid) != MatchOutcome::InProgress;
        Ok(
            MatchView {
                board: BoardView { grid, ..before.board },
                playing: if decided {
                    PlayingState::GameOver
                } else {
                    PlayingState::Playing
                },
                turn: if decided {
                    before.turn
                } else {
                    before.turn.other()
                },
            },
        )
    }
}

/// What a click on the window did to the match.
#[derive(Debug, Clone, Copy, PartialEq, Eq)]
pub enum ClickOutcome {
    /// The pointer was over no cell; no move was made.
    Missed,
    /// The pointer was over a cell, and the move there was refused.
    Refused(GameError),
    /// A mark was put down.
    Placed {
        coordinates: Coordinates,
        /// The mark that was put down.
        tile: Tile,
        /// What draws the cell, if anything was attached to it.
        entity: Option<Entity>,
        /// How the match stands after the move.
        outcome: MatchOutcome,
    },
}

/// What a click at `position`, in a window of the given size, does to
/// `before`: the move at the cell under the pointer, if there is one.
pub open spec fn click_outcome(
    before: MatchView,
    window_width: u32,
    window_height: u32,
    position: Position,
) -> ClickOutcome {
    match cell_clicked(before.board, window_width, window_height, position) {
        None => ClickOutcome::Missed,
        Some(coordinates) => match after_move(before, coordinates) {
            Err(error) => ClickOutcome::Refused(error),
            Ok(after) => ClickOutcome::Placed {
                coordinates,
                tile: before.turn.mark_of(),
                entity: if before.board.entities.contains_key(key_of(coordinates)) {
                    Some(before.board.entities[key_of(coordinates)])
                } else {
                    None
                },
                outcome: outcome_of(after.board.grid),
            },
        },
    }
}

/// One match of tic-tac-toe, from the first move to the win or the draw.
pub struct Match {
    board: Board,
    playing: PlayingState,
    turn: WhoseTurn,
}

impl View for Match {
    type V = MatchView;

    closed spec fn view(&self) -> MatchView {
        MatchView { board: self.board@, playing: self.playing, turn: self.turn }
    }
}

impl Match {
    /// A match is well formed when what it is made of is.
    pub open spec fn wf(&self) -> bool {
        self@.wf()
    }

    /// Starts a match on an empty board of `size` by `size` cells. X moves
    /// first.
    pub fn new(size: u32) -> (result: Result<Match, GameError>)
        ensures
            size < 1 ==> result is Err && result->Err_0 == GameError::InvalidSize,
            size >= 1 ==> result is Ok && result->Ok_0.wf() && result->Ok_0@ == fresh_match(size),
    {
        let board = match Board::new(size, LENGTH) {
            Ok(board) => board,
            Err(error) => {
                return Err(error);
            },
        };
        proof {
            lemma_empty_grid_in_progress(size as nat);
        }
        Ok(Match { board, playing: PlayingState::Playing, turn: WhoseTurn::XTurn })
    }

    /// The board of the match.
    pub fn board(&self) -> (board: &Board)
        ensures
            board@ == self@.board,
    {
        &self.board
    }

    /// Whether the match still takes moves.
    pub fn playing_state(&self) -> (playing: PlayingState)
        ensures
            playing == self@.playing,
    {
        self.playing
    }

    /// Who moves next; once the match is over, who moved last.
    pub fn whose_turn(&self) -> (turn: WhoseTurn)
        ensures
            turn == self@.turn,
    {
        self.turn
    }

    /// How the match stands, read off the board.
    pub fn outcome(&self) -> (outcome: MatchOutcome)
        requires
            self.wf(),
        ensures
            outcome == outcome_of(self@.board.grid),
    {
        self.board.tile_map().outcome()
    }

    /// Records that `entity` draws the cell at `coordinates`; see
    /// `Board::attach_tile`.
    pub fn attach_tile(&mut self, coordinates: Coordinates, entity: Entity) -> (result: Result<
        Option<Entity>,
        GameError,
    >)
        requires
            old(self).wf(),
        ensures
            final(self).wf(),
            !in_range(old(self)@.board.grid, coordinates) ==> result == Err::<
                Option<Entity>,
                GameError,
            >(GameError::OutOfBounds) && *final(self) == *old(self),
            in_range(old(self)@.board.grid, coordinates) ==> result == Ok::<
                Option<Entity>,
                GameError,
            >(
                if old(self)@.board.entities.contains_key(key_of(coordinates)) {
                    Some(old(self)@.board.entities[key_of(coordinates)])
                } else {
                    None
                },
            ) && final(self)@ == (MatchView {
                board: BoardView {
                    entities: old(self)@.board.entities.insert(key_of(coordinates), entity),
                    ..old(self)@.board
                },
                ..old(self)@
            }),
    {
        self.board.attach_tile(coordinates, entity)
    }

    /// Makes the move of the player whose turn it is at `coordinates`, and
    /// says how the match stands after it. A refused move changes nothing.
    pub fn attempt_move(&mut self, coordinates: Coordinates) -> (result: Result<
        MatchOutcome,
        GameError,
    >)
        requires
            old(self).wf(),
        ensures
            final(self).wf(),
            match after_move(old(self)@, coordinates) {
                Ok(after) => final(self)@ == after && result == Ok::<MatchOutcome, GameError>(
                    outcome_of(after.board.grid),
                ),
                Err(error) => *final(self) == *old(self) && result == Err::<
                    MatchOutcome,
                    GameError,
                >(error),
            },
    {
        if self.playing != PlayingState::Playing {
            return Err(GameError::MatchFinished);
        }
        let mark = self.turn.mark();
        match self.board.place(coordinates, mark) {
            Ok(()) => {},
            Err(error) => {
                return Err(error);
            },
        }
        let outcome = self.board.tile_map().outcome();
        if outcome != MatchOutcome::InProgress {
            self.playing = PlayingState::GameOver;
        } else {
            self.turn = self.turn.next();
        }
        Ok(outcome)
    }

    /// Handles a click at `position` in a window of the given size: makes the
    /// move at the cell under the pointer, if the pointer is over a cell, and
    /// says what is to be drawn.
    pub fn click(&mut self, window_width: u32, window_height: u32, position: Position) -> (outcome:
        ClickOutcome)
        requires
            old(self).wf(),
        ensures
            final(self).wf(),
            outcome == click_outcome(old(self)@, window_width, window_height, position),
            outcome matches ClickOutcome::Placed { coordinates, .. } ==> after_move(
                old(self)@,
                coordinates,
            ) == Ok::<MatchView, GameError>(final(self)@),
            !(outcome is Placed) ==> *final(self) == *old(self),
    {
        let coordinates = match self.board.mouse_position(window_width, window_height, position) {
            Some(coordinates) => coordinates,
            None => {
                return ClickOutcome::Missed;
            },
        };
        let tile = self.turn.mark();
        match self.attempt_move(coordinates) {
            Ok(outcome) => {
                let entity = match self.board.get_tile(&coordinates) {
                    Some(entity) => Some(*entity),
                    None => None,
                };
                ClickOutcome::Placed { coordinates, tile, entity, outcome }
            },
            Err(error) => ClickOutcome::Refused(error),
        }
    }
}

/// On an empty board nobody has won and a cell is free.
pub proof fn lemma_empty_grid_in_progress(side: nat)
    requires
        side >= 1,
    ensures
        outcome_of(crate::tile_map::empty_grid(side)) == MatchOutcome::InProgress,
{
    let grid = crate::tile_map::empty_grid(side);
    assert(grid[0][0] == Tile::Empty);
    assert forall|mark: Tile| mark != Tile::Empty implies !crate::outcome::has_line(
        grid,
        mark,
    ) by {
        assert forall|r: int| 0 <= r < grid.len() implies !crate::outcome::row_filled(
            grid,
            r,
            mark,
        ) by {
            assert(grid[r][0] == Tile::Empty);
        }
        assert forall|c: int| 0 <= c < grid.len() implies !crate::outcome::column_filled(
            grid,
            c,
            mark,
        ) by {
            assert(grid[0][c] == Tile::Empty);
        }
        assert(grid[0][0] != mark);
        assert(grid[0][grid.len() - 1 - 0] != mark);
    }
}

} // verus!

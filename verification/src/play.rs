use vstd::prelude::*;
use crate::board::fresh_board;
use crate::constants::LENGTH;
use crate::error::GameError;
use crate::game::{
    after_move, fresh_match, lemma_empty_grid_in_progress, MatchView, PlayingState, WhoseTurn,
};
use crate::outcome::{outcome_of, MatchOutcome};
use crate::tile::Coordinates;
use crate::tile_map::tile_at;

verus! {

/// The match after the moves at `moves` were tried one after the other,
/// starting from `start`. A refused move changes nothing.
pub open spec fn after_moves(start: MatchView, moves: Seq<Coordinates>) -> MatchView
    decreases moves.len(),
{
    if moves.len() == 0 {
        start
    } else {
        let before = after_moves(start, moves.drop_last());
        match after_move(before, moves.last()) {
            Ok(after) => after,
            Err(_) => before,
        }
    }
}

/// How many of the moves at `moves`, tried one after the other from `start`,
/// were accepted.
pub open spec fn accepted_moves(start: MatchView, moves: Seq<Coordinates>) -> nat
    decreases moves.len(),
{
    if moves.len() == 0 {
        0
    } else {
        let before = after_moves(start, moves.drop_last());
        let earlier = accepted_moves(start, moves.drop_last());
        if after_move(before, moves.last()) is Ok {
            earlier + 1
        } else {
            earlier
        }
    }
}

/// The player who makes the accepted move number `number` of a match, the
/// first move being number zero: X, O, X, O and so on.
pub open spec fn mover(number: nat) -> WhoseTurn {
    if number % 2 == 0 {
        WhoseTurn::XTurn
    } else {
        WhoseTurn::OTurn
    }
}

/// The board that a match starts on is well formed.
pub proof fn lemma_fresh_board_wf(size: u32, length: u32)
    requires
        size >= 1,
    ensures
        fresh_board(size, length).wf(),
{
    let tile_size = length / size;
    assert(0 <= size * tile_size <= length) by (nonlinear_arith)
        requires
            size >= 1,
            length >= 0,
            tile_size == length / size,
    ;
}

/// The match as it starts is well formed.
pub proof fn lemma_fresh_match_wf(size: u32)
    requires
        size >= 1,
    ensures
        fresh_match(size).wf(),
{
    lemma_fresh_board_wf(size, LENGTH);
    lemma_empty_grid_in_progress(size as nat);
}

/// An accepted move takes a well-formed match to a well-formed match.
pub proof fn lemma_move_keeps_wf(before: MatchView, coordinates: Coordinates)
    requires
        before.wf(),
        after_move(before, coordinates) is Ok,
    ensures
        after_move(before, coordinates)->Ok_0.wf(),
{
}

/// A refused move leaves the match as it was: however often it is tried
/// again, it is refused again and nothing changes.
pub proof fn lemma_refused_move_changes_nothing(
    before: MatchView,
    coordinates: Coordinates,
    times: nat,
)
    requires
        after_move(before, coordinates) is Err,
    ensures
        after_moves(before, Seq::new(times, |i: int| coordinates)) == before,
        accepted_moves(before, Seq::new(times, |i: int| coordinates)) == 0,
    decreases times,
{
    if times > 0 {
        lemma_refused_move_changes_nothing(before, coordinates, (times - 1) as nat);
        assert(Seq::new(times, |i: int| coordinates).drop_last() =~= Seq::new(
            (times - 1) as nat,
            |i: int| coordinates,
        ));
    }
}

/// Once a match shows a win or a draw it refuses every move: whatever is
/// tried from then on, the match stays as it is.
pub proof fn lemma_decided_match_is_final(decided: MatchView, moves: Seq<Coordinates>)
    requires
        decided.wf(),
        outcome_of(decided.board.grid) != MatchOutcome::InProgress,
    ensures
        forall|coordinates: Coordinates| #[trigger]
            after_move(decided, coordinates) == Err::<MatchView, GameError>(
                GameError::MatchFinished,
            ),
        after_moves(decided, moves) == decided,
        accepted_moves(decided, moves) == 0,
    decreases moves.len(),
{
    if moves.len() > 0 {
        lemma_decided_match_is_final(decided, moves.drop_last());
    }
}

/// From the first move of a match the players take turns, X first: while the
/// match is in play, the player to move is the one whose number the count of
/// accepted moves gives; once it is over, the turn stays with the player who
/// made the last accepted move.
pub proof fn lemma_turns_alternate(size: u32, moves: Seq<Coordinates>)
    requires
        size >= 1,
    ensures
        after_moves(fresh_match(size), moves).wf(),
        after_moves(fresh_match(size), moves).playing == PlayingState::Playing ==> after_moves(
            fresh_match(size),
            moves,
        ).turn == mover(accepted_moves(fresh_match(size), moves)),
        after_moves(fresh_match(size), moves).playing == PlayingState::GameOver
            ==> accepted_moves(fresh_match(size), moves) >= 1 && after_moves(
            fresh_match(size),
            moves,
        ).turn == mover((accepted_moves(fresh_match(size), moves) - 1) as nat),
    decreases moves.len(),
{
    if moves.len() == 0 {
        lemma_fresh_match_wf(size);
    } else {
        lemma_turns_alternate(size, moves.drop_last());
        let before = after_moves(fresh_match(size), moves.drop_last());
        if after_move(before, moves.last()) is Ok {
            lemma_move_keeps_wf(before, moves.last());
        }
    }
}

/// The accepted moves of a match put down X, O, X, O and so on: a move that
/// is accepted after `moves` were tried writes the mark of the player whose
/// number the count of accepted moves so far gives.
pub proof fn lemma_marks_alternate(size: u32, moves: Seq<Coordinates>, coordinates: Coordinates)
    requires
        size >= 1,
        after_move(after_moves(fresh_match(size), moves), coordinates) is Ok,
    ensures
        tile_at(
            after_move(after_moves(fresh_match(size), moves), coordinates)->Ok_0.board.grid,
            coordinates,
        ) == mover(accepted_moves(fresh_match(size), moves)).mark_of(),
{
    lemma_turns_alternate(size, moves);
}

} // verus!

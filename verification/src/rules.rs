//! The rules of rock, paper, scissors.

use vstd::prelude::*;
use crate::msg::{GameMove, GameResult};

verus! {

/// Whether the move `a` beats the move `b`: rock beats scissors, paper beats
/// rock, scissors beat paper.
pub open spec fn beats(a: GameMove, b: GameMove) -> bool {
    ||| a == GameMove::Rock && b == GameMove::Scissors
    ||| a == GameMove::Paper && b == GameMove::Rock
    ||| a == GameMove::Scissors && b == GameMove::Paper
}

/// How a game ends: a tie where the moves are equal, else a win for the one
/// whose move beats the other's.
pub open spec fn outcome(host_move: GameMove, opp_move: GameMove) -> GameResult {
    if host_move == opp_move {
        GameResult::Tie
    } else if beats(host_move, opp_move) {
        GameResult::HostWins
    } else {
        GameResult::OpponentWins
    }
}

/// The same result, seen from the other side of the table.
pub open spec fn swapped(result: GameResult) -> GameResult {
    match result {
        GameResult::HostWins => GameResult::OpponentWins,
        GameResult::OpponentWins => GameResult::HostWins,
        GameResult::Tie => GameResult::Tie,
    }
}

/// Decides a game.
pub fn judge(host_move: GameMove, opp_move: GameMove) -> (result: GameResult)
    ensures
        result == outcome(host_move, opp_move),
{
    let mut result = GameResult::HostWins;
    if host_move == GameMove::Rock && opp_move == GameMove::Paper {
        result = GameResult::OpponentWins;
    } else if host_move == GameMove::Paper && opp_move == GameMove::Scissors {
        result = GameResult::OpponentWins;
    } else if host_move == GameMove::Scissors && opp_move == GameMove::Rock {
        result = GameResult::OpponentWins;
    } else if host_move == opp_move {
        result = GameResult::Tie;
    }
    result
}

/// Of two moves, either they are equal or exactly one beats the other; so the
/// table has one result for every pair of moves: a tie for equal moves, a win
/// for the host where its move beats the opponent's, and a win for the
/// opponent where its move beats the host's.
pub proof fn law_outcome_total(host_move: GameMove, opp_move: GameMove)
    ensures
        (host_move == opp_move) != (beats(host_move, opp_move) || beats(opp_move, host_move)),
        !(beats(host_move, opp_move) && beats(opp_move, host_move)),
        outcome(host_move, opp_move) == GameResult::Tie <==> host_move == opp_move,
        outcome(host_move, opp_move) == GameResult::HostWins <==> beats(host_move, opp_move),
        outcome(host_move, opp_move) == GameResult::OpponentWins <==> beats(opp_move, host_move),
{
}

/// Where host and opponent change places and take their moves with them, a
/// win for the one becomes a win for the other and a tie stays a tie.
pub proof fn law_outcome_role_swap(host_move: GameMove, opp_move: GameMove)
    ensures
        outcome(opp_move, host_move) == swapped(outcome(host_move, opp_move)),
{
}

} // verus!

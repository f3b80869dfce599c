//! The outcome model: player identities, finished-game results, the
//! running/finished status of a game, and the value the search assigns to a
//! state.

use vstd::prelude::*;

verus! {

/// One of the two identities that alternate moves in a game.
#[derive(Clone, Copy, Debug, Hash, PartialEq, Eq, Structural)]
pub enum Player {
    One,
    Two,
}

/// The result of a finished game: a draw, or a win for one player.
#[derive(Clone, Copy, Debug, Hash, PartialEq, Eq, Structural)]
pub enum GameResult {
    Draw,
    Win(Player),
}

/// Whether a game is still running (and who is to move) or finished (and how).
#[derive(Clone, Copy, Debug, Hash, PartialEq, Eq, Structural)]
pub enum Status {
    Running(Player),
    Finished(GameResult),
}

/// The value the search assigns to a state.
///
/// `Definite(result, distance)` is an exact, forced result reachable under
/// optimal play, `distance` plies away along the line that achieves it.
/// `Indefinite(score)` is a heuristic estimate, used only when the depth
/// budget runs out before the game concludes; positive scores favor
/// [`Player::One`].
#[derive(Clone, Copy, Debug, Hash, PartialEq, Eq, Structural)]
pub enum Outcome {
    Definite(GameResult, usize),
    Indefinite(isize),
}

impl Player {
    /// The opposing identity; swapping twice returns the original.
    pub open spec fn spec_other(self) -> Player {
        match self {
            Player::One => Player::Two,
            Player::Two => Player::One,
        }
    }

    /// The opposing identity.
    #[verifier::when_used_as_spec(spec_other)]
    pub fn other(self) -> (r: Player)
        ensures
            r == self.spec_other(),
    {
        match self {
            Player::One => Player::Two,
            Player::Two => Player::One,
        }
    }
}

impl GameResult {
    /// The winning player, or `None` for a draw.
    pub open spec fn spec_winner(self) -> Option<Player> {
        match self {
            GameResult::Draw => None,
            GameResult::Win(player) => Some(player),
        }
    }

    /// The winning player, or `None` for a draw.
    #[verifier::when_used_as_spec(spec_winner)]
    pub fn winner(self) -> (r: Option<Player>)
        ensures
            r == self.spec_winner(),
    {
        match self {
            GameResult::Draw => None,
            GameResult::Win(player) => Some(player),
        }
    }
}

} // verus!

//! A game-agnostic, depth-bounded adversarial search engine.
//!
//! Given any deterministic, perfect-information two-player game that
//! implements the capability contract in [`search`], the engine computes the
//! game-theoretically best moves up to a bounded depth, classifying each
//! candidate as an exact forced result ([`Outcome::Definite`]) or a heuristic
//! estimate at the search horizon ([`Outcome::Indefinite`]).

pub mod compare;
pub mod game_2048;
pub mod search;
pub mod tic_tac_toe;
pub mod outcome;

pub use compare::compare_outcome;
pub use search::{GameState, Minimax, MinimaxError, MinimaxResult};
pub use outcome::{GameResult, Outcome, Player, Status};

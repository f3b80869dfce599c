//! The depth-bounded search: the capability contract a concrete game must
//! satisfy, a mathematical model of the search over abstract game states, and
//! the executable search proved to follow that model.
//!
//! The search enumerates the legal moves of a running state, simulates each
//! one on a private clone, evaluates the resulting state (exactly if the game
//! ends or the recursion can continue, heuristically at the horizon), and
//! returns the best outcome from the mover's viewpoint together with every
//! move tied for it.

use core::cmp::Ordering;
use core::hash::Hash;

use vstd::prelude::*;

use crate::compare::{compare_outcome, spec_cmp};
use crate::outcome::{Outcome, Player, Status};

verus! {

/// The result of a successful search: the best outcome reachable from the
/// searched state, and every legal move whose outcome ties with it. Ties are
/// surfaced to the caller, never broken arbitrarily.
#[derive(Clone)]
pub struct Minimax<S: GameState> {
    pub outcome: Outcome,
    pub moves: Vec<S::Move>,
}

/// Why a search failed. No failure is retried internally; each aborts the
/// whole search invocation.
pub enum MinimaxError<S: GameState> {
    /// The search was invoked on a state that is already finished.
    GameAlreadyFinished,
    /// Simulating a candidate move failed with the game's own error.
    MoveError(S::MoveError),
    /// A running state reported zero legal moves (a contract violation of the
    /// game, handled defensively).
    NoPossibleMoves,
}

pub type MinimaxResult<S> = Result<Minimax<S>, MinimaxError<S>>;

/// The capability contract a concrete game must satisfy for the search to
/// operate on it. The game's behaviour is modelled by four spec functions
/// over its abstract state (its view); each executable method is tied to the
/// model by its contract.
pub trait GameState: Sized + View {
    type Move: Copy + Eq + Hash;

    type MoveError;

    /// Whether the abstract state is running (and who is to move) or
    /// finished.
    spec fn status_of(v: Self::V) -> Status;

    /// The legal moves of the abstract state, in the game's enumeration
    /// order; empty once finished.
    spec fn moves_of(v: Self::V) -> Seq<Self::Move>;

    /// The abstract state after a move, or the game's error when the move is
    /// rejected (in which case the state is unchanged).
    spec fn move_of(v: Self::V, mov: Self::Move) -> Result<Self::V, Self::MoveError>;

    /// The heuristic desirability of the abstract state; positive favors
    /// [`Player::One`].
    spec fn score_of(v: Self::V) -> isize;

    fn get_status(&self) -> (r: Status)
        ensures
            r == Self::status_of(self@),
    ;

    fn possible_moves(&self) -> (r: Vec<Self::Move>)
        ensures
            r@ == Self::moves_of(self@),
    ;

    fn make_move(&mut self, mov: &Self::Move) -> (r: Result<(), Self::MoveError>)
        ensures
            match Self::move_of(old(self)@, *mov) {
                Result::Ok(next) => r == Result::<(), Self::MoveError>::Ok(()) && final(self)@
                    == next,
                Result::Err(e) => r == Result::<(), Self::MoveError>::Err(e) && final(self)@
                    == old(self)@,
            },
    ;

    /// An independent copy of the state, so that simulated moves never touch
    /// the caller's original.
    fn clone_state(&self) -> (r: Self)
        ensures
            r@ == self@,
    ;

    /// The heuristic score of the current state; a game without a static
    /// evaluator returns the neutral value 0.
    fn get_score(&self) -> (r: isize)
        ensures
            r == Self::score_of(self@),
    ;

}

/// Whether a forced result, if `outcome` reports one, lies within `depth`
/// plies.
pub open spec fn definite_within(outcome: Outcome, depth: nat) -> bool {
    match outcome {
        Outcome::Definite(_, distance) => distance <= depth,
        Outcome::Indefinite(_) => true,
    }
}

/// The same outcome one ply farther away: a forced result gains one move of
/// distance while a heuristic estimate is passed through undiscounted.
pub open spec fn bump_outcome(outcome: Outcome) -> Outcome {
    match outcome {
        Outcome::Definite(result, distance) => Outcome::Definite(result, (distance + 1) as usize),
        Outcome::Indefinite(score) => Outcome::Indefinite(score),
    }
}

/// The value of one candidate move from the abstract state `v` with `depth`
/// remaining plies of budget: an exact result if the move ends the game, the
/// child's heuristic score at the horizon, and otherwise the child's best
/// outcome moved one ply farther away.
pub open spec fn spec_child_outcome<S: GameState>(v: S::V, mov: S::Move, depth: nat) -> Result<
    Outcome,
    MinimaxError<S>,
>
    decreases depth, 0nat, 0nat,
{
    match S::move_of(v, mov) {
        Result::Err(e) => Result::Err(MinimaxError::MoveError(e)),
        Result::Ok(child) => match S::status_of(child) {
            Status::Finished(result) => Result::Ok(Outcome::Definite(result, 0)),
            Status::Running(_) => if depth == 0 {
                Result::Ok(Outcome::Indefinite(S::score_of(child)))
            } else {
                match spec_minimax::<S>(child, (depth - 1) as nat) {
                    Result::Err(e) => Result::Err(e),
                    Result::Ok(pair) => Result::Ok(bump_outcome(pair.0)),
                }
            },
        },
    }
}

/// The values of a list of candidate moves, in order, stopped at the first
/// move whose evaluation fails.
pub open spec fn spec_outcomes<S: GameState>(v: S::V, moves: Seq<S::Move>, depth: nat) -> Result<
    Seq<Outcome>,
    MinimaxError<S>,
>
    decreases depth, 1nat, moves.len(),
{
    if moves.len() == 0 {
        Result::Ok(Seq::empty())
    } else {
        match spec_outcomes::<S>(v, moves.drop_last(), depth) {
            Result::Err(e) => Result::Err(e),
            Result::Ok(rest) => match spec_child_outcome::<S>(v, moves.last(), depth) {
                Result::Err(e) => Result::Err(e),
                Result::Ok(last) => Result::Ok(rest.push(last)),
            },
        }
    }
}

/// The greatest of a non-empty list of outcomes from `player`'s viewpoint;
/// of tied maxima the last is kept, which never matters because outcomes that
/// compare equal are the same outcome.
pub open spec fn spec_best_outcome(player: Player, outcomes: Seq<Outcome>) -> Outcome
    recommends
        outcomes.len() > 0,
    decreases outcomes.len(),
{
    if outcomes.len() <= 1 {
        outcomes[0]
    } else {
        let rest = spec_best_outcome(player, outcomes.drop_last());
        if spec_cmp(player, rest, outcomes.last()) == Ordering::Greater {
            rest
        } else {
            outcomes.last()
        }
    }
}

/// The moves of `moves` whose value is exactly `best`, in enumeration order.
pub open spec fn spec_best_moves<S: GameState>(
    v: S::V,
    moves: Seq<S::Move>,
    depth: nat,
    best: Outcome,
) -> Seq<S::Move>
    decreases depth, 1nat, moves.len(),
{
    if moves.len() == 0 {
        Seq::empty()
    } else {
        let rest = spec_best_moves::<S>(v, moves.drop_last(), depth, best);
        if spec_child_outcome::<S>(v, moves.last(), depth) == Result::<
            Outcome,
            MinimaxError<S>,
        >::Ok(best) {
            rest.push(moves.last())
        } else {
            rest
        }
    }
}

/// The mathematical model of the search from the abstract state `v` with
/// `depth` remaining plies of budget: a finished state is rejected, a running
/// state without moves is rejected defensively, the first failing move aborts
/// the search with its error, and otherwise the result pairs the best of the
/// children's values (from the mover's viewpoint) with every move tied for
/// it.
pub open spec fn spec_minimax<S: GameState>(v: S::V, depth: nat) -> Result<
    (Outcome, Seq<S::Move>),
    MinimaxError<S>,
>
    decreases depth, 2nat, 0nat,
{
    match S::status_of(v) {
        Status::Finished(_) => Result::Err(MinimaxError::GameAlreadyFinished),
        Status::Running(player) => {
            let moves = S::moves_of(v);
            if moves.len() == 0 {
                Result::Err(MinimaxError::NoPossibleMoves)
            } else {
                match spec_outcomes::<S>(v, moves, depth) {
                    Result::Err(e) => Result::Err(e),
                    Result::Ok(outcomes) => {
                        let best = spec_best_outcome(player, outcomes);
                        Result::Ok((best, spec_best_moves::<S>(v, moves, depth, best)))
                    },
                }
            }
        },
    }
}

/// Once a prefix of the moves fails to evaluate, the whole list fails with
/// the same error: evaluation stops at the first failure.
proof fn lemma_outcomes_err_extend<S: GameState>(
    v: S::V,
    moves: Seq<S::Move>,
    depth: nat,
    k: int,
    e: MinimaxError<S>,
)
    requires
        0 <= k <= moves.len(),
        spec_outcomes::<S>(v, moves.take(k), depth) == Result::<Seq<Outcome>, MinimaxError<S>>::Err(
            e,
        ),
    ensures
        spec_outcomes::<S>(v, moves, depth) == Result::<Seq<Outcome>, MinimaxError<S>>::Err(e),
    decreases moves.len(),
{
    if k == moves.len() {
        assert(moves.take(k) =~= moves);
    } else {
        assert(moves.drop_last().take(k) =~= moves.take(k));
        lemma_outcomes_err_extend::<S>(v, moves.drop_last(), depth, k, e);
    }
}

/// Move-set completeness: the tied moves are exactly the candidates whose
/// value is the best outcome — every returned move achieves it, every
/// candidate achieving it is returned, and the enumeration order is kept.
pub proof fn lemma_best_moves_complete<S: GameState>(
    v: S::V,
    moves: Seq<S::Move>,
    depth: nat,
    best: Outcome,
)
    ensures
        forall|j: int| 0 <= j < spec_best_moves::<S>(v, moves, depth, best).len()
            ==> spec_child_outcome::<S>(
            v,
            #[trigger] spec_best_moves::<S>(v, moves, depth, best)[j],
            depth,
        ) == Result::<Outcome, MinimaxError<S>>::Ok(best),
        forall|j: int|
            0 <= j < moves.len() && spec_child_outcome::<S>(v, #[trigger] moves[j], depth)
                == Result::<Outcome, MinimaxError<S>>::Ok(best) ==> spec_best_moves::<S>(
                v,
                moves,
                depth,
                best,
            ).contains(moves[j]),
    decreases moves.len(),
{
    if moves.len() > 0 {
        lemma_best_moves_complete::<S>(v, moves.drop_last(), depth, best);
        let kept = spec_best_moves::<S>(v, moves, depth, best);
        let rest = spec_best_moves::<S>(v, moves.drop_last(), depth, best);
        assert forall|j: int|
            0 <= j < moves.len() && spec_child_outcome::<S>(v, #[trigger] moves[j], depth)
                == Result::<Outcome, MinimaxError<S>>::Ok(best) implies kept.contains(
            moves[j],
        ) by {
            if j < moves.len() - 1 {
                assert(moves.drop_last()[j] == moves[j]);
                assert(rest.contains(moves[j]));
                let w = choose|w: int| 0 <= w < rest.len() && rest[w] == moves[j];
                assert(kept[w] == moves[j]);
            } else {
                assert(kept.last() == moves[j]);
            }
        }
    }
}

/// A successfully evaluated move list yields one outcome per move, in order:
/// the outcome at each position is the value of the move at that position.
pub proof fn lemma_outcomes_pointwise<S: GameState>(v: S::V, moves: Seq<S::Move>, depth: nat)
    ensures
        match spec_outcomes::<S>(v, moves, depth) {
            Result::Ok(outcomes) => outcomes.len() == moves.len() && forall|j: int|
                0 <= j < moves.len() ==> spec_child_outcome::<S>(v, #[trigger] moves[j], depth)
                    == Result::<Outcome, MinimaxError<S>>::Ok(outcomes[j]),
            Result::Err(_) => true,
        },
    decreases moves.len(),
{
    if moves.len() > 0 {
        lemma_outcomes_pointwise::<S>(v, moves.drop_last(), depth);
        assert forall|j: int| 0 <= j < moves.len() - 1 implies moves.drop_last()[j] == moves[j] by {
        }
    }
}

/// A successful search returns at least one move: some enumerated move
/// achieves the best outcome, and every such move is in the tie set.
pub proof fn lemma_best_moves_nonempty<S: GameState>(v: S::V, depth: nat)
    ensures
        match spec_minimax::<S>(v, depth) {
            Result::Ok(pair) => pair.1.len() > 0,
            Result::Err(_) => true,
        },
{
    match S::status_of(v) {
        Status::Finished(_) => {},
        Status::Running(player) => {
            let moves = S::moves_of(v);
            if moves.len() > 0 {
                lemma_outcomes_pointwise::<S>(v, moves, depth);
                match spec_outcomes::<S>(v, moves, depth) {
                    Result::Ok(outcomes) => {
                        lemma_best_outcome_in(player, outcomes);
                        let best = spec_best_outcome(player, outcomes);
                        let j = choose|j: int| 0 <= j < outcomes.len() && outcomes[j] == best;
                        lemma_best_moves_complete::<S>(v, moves, depth, best);
                        assert(spec_best_moves::<S>(v, moves, depth, best).contains(moves[j]));
                    },
                    Result::Err(_) => {},
                }
            }
        },
    }
}

/// Terminal search rejection: searching a state that is already finished
/// fails with [`MinimaxError::GameAlreadyFinished`], whatever the depth
/// budget.
pub proof fn lemma_finished_state_rejected<S: GameState>(v: S::V, depth: nat)
    requires
        S::status_of(v) matches Status::Finished(_),
    ensures
        spec_minimax::<S>(v, depth) == Result::<(Outcome, Seq<S::Move>), MinimaxError<S>>::Err(
            MinimaxError::GameAlreadyFinished,
        ),
{
}

/// Depth-0 degeneration: with no budget left, a move whose resulting state is
/// still running is valued by exactly that state's immediate heuristic score;
/// no deeper evaluation takes place.
pub proof fn lemma_horizon_heuristic<S: GameState>(v: S::V, mov: S::Move)
    requires
        S::move_of(v, mov) matches Result::Ok(child) && S::status_of(child) matches Status::Running(
            _,
        ),
    ensures
        S::move_of(v, mov) matches Result::Ok(child) ==> spec_child_outcome::<S>(v, mov, 0)
            == Result::<Outcome, MinimaxError<S>>::Ok(Outcome::Indefinite(S::score_of(child))),
{
}

/// The best of a non-empty list of outcomes is one of them.
proof fn lemma_best_outcome_in(player: Player, outcomes: Seq<Outcome>)
    requires
        outcomes.len() > 0,
    ensures
        exists|j: int| 0 <= j < outcomes.len() && outcomes[j] == spec_best_outcome(
            player,
            outcomes,
        ),
    decreases outcomes.len(),
{
    if outcomes.len() > 1 {
        lemma_best_outcome_in(player, outcomes.drop_last());
        let best = spec_best_outcome(player, outcomes);
        if best == spec_best_outcome(player, outcomes.drop_last()) {
            let j = choose|j: int|
                0 <= j < outcomes.drop_last().len() && outcomes.drop_last()[j] == best;
            assert(outcomes[j] == best);
        } else {
            assert(outcomes[outcomes.len() - 1] == best);
        }
    }
}

/// A move evaluated with budget `depth` never reports a forced result more
/// than `depth` plies away.
proof fn lemma_child_distance<S: GameState>(v: S::V, mov: S::Move, depth: nat)
    ensures
        match spec_child_outcome::<S>(v, mov, depth) {
            Result::Ok(outcome) => definite_within(outcome, depth),
            Result::Err(_) => true,
        },
    decreases depth, 3nat, 0nat,
{
    match S::move_of(v, mov) {
        Result::Err(_) => {},
        Result::Ok(child) => match S::status_of(child) {
            Status::Finished(_) => {},
            Status::Running(_) => {
                if depth > 0 {
                    lemma_distance_bounded::<S>(child, (depth - 1) as nat);
                }
            },
        },
    }
}

/// Every outcome in a successfully evaluated move list respects the distance
/// bound, and there is one outcome per move.
proof fn lemma_outcomes_distance<S: GameState>(v: S::V, moves: Seq<S::Move>, depth: nat)
    ensures
        match spec_outcomes::<S>(v, moves, depth) {
            Result::Ok(outcomes) => outcomes.len() == moves.len() && forall|j: int|
                0 <= j < outcomes.len() ==> definite_within(#[trigger] outcomes[j], depth),
            Result::Err(_) => true,
        },
    decreases depth, 4nat, moves.len(),
{
    if moves.len() > 0 {
        lemma_outcomes_distance::<S>(v, moves.drop_last(), depth);
        lemma_child_distance::<S>(v, moves.last(), depth);
    }
}

/// Distance bound: a search with budget `depth` never reports a forced result
/// more than `depth` plies away.
pub proof fn lemma_distance_bounded<S: GameState>(v: S::V, depth: nat)
    ensures
        match spec_minimax::<S>(v, depth) {
            Result::Ok(pair) => definite_within(pair.0, depth),
            Result::Err(_) => true,
        },
    decreases depth, 5nat, 0nat,
{
    match S::status_of(v) {
        Status::Finished(_) => {},
        Status::Running(player) => {
            let moves = S::moves_of(v);
            if moves.len() > 0 {
                lemma_outcomes_distance::<S>(v, moves, depth);
                match spec_outcomes::<S>(v, moves, depth) {
                    Result::Ok(outcomes) => {
                        lemma_best_outcome_in(player, outcomes);
                    },
                    Result::Err(_) => {},
                }
            }
        },
    }
}

/// Distance monotonicity: with budget left, a move valued as a forced result
/// is either immediately terminal (distance 0) or exactly one ply farther
/// than the forced result the recursive search reports for its child at the
/// next smaller budget.
pub proof fn lemma_distance_monotonic<S: GameState>(v: S::V, mov: S::Move, depth: nat)
    requires
        0 < depth <= usize::MAX,
        spec_child_outcome::<S>(v, mov, depth) matches Result::Ok(o) && o matches Outcome::Definite(
            _,
            _,
        ),
    ensures
        match (S::move_of(v, mov), spec_child_outcome::<S>(v, mov, depth)) {
            (Result::Ok(child), Result::Ok(Outcome::Definite(result, dist))) => match S::status_of(
                child,
            ) {
                Status::Finished(end) => dist == 0 && end == result,
                Status::Running(_) => {
                    &&& dist >= 1
                    &&& spec_minimax::<S>(child, (depth - 1) as nat) matches Result::Ok(pair)
                        && pair.0 == Outcome::Definite(result, (dist - 1) as usize)
                },
            },
            _ => false,
        },
{
    match S::move_of(v, mov) {
        Result::Err(_) => {},
        Result::Ok(child) => match S::status_of(child) {
            Status::Finished(_) => {},
            Status::Running(_) => {
                lemma_distance_bounded::<S>(child, (depth - 1) as nat);
            },
        },
    }
}

/// The executable search: explores every legal move of `state`, recursing
/// `depth` plies past the immediate children, and returns exactly what the
/// model [`spec_minimax`] prescribes. A forced result is never reported
/// farther away than `depth` plies.
pub fn minimax_search<S: GameState>(state: &S, depth: usize) -> (r: MinimaxResult<S>)
    ensures
        match (r, spec_minimax::<S>(state@, depth as nat)) {
            (Result::Ok(m), Result::Ok(pair)) => m.outcome == pair.0 && m.moves@ == pair.1,
            (Result::Err(actual), Result::Err(expected)) => actual == expected,
            _ => false,
        },
        match r {
            Result::Ok(m) => definite_within(m.outcome, depth as nat),
            Result::Err(_) => true,
        },
    decreases depth,
{
    let ghost v = state@;
    let ghost d = depth as nat;

    let player = match state.get_status() {
        Status::Running(player) => player,
        Status::Finished(_) => {
            return Result::Err(MinimaxError::GameAlreadyFinished);
        },
    };

    let moves = state.possible_moves();

    if moves.len() == 0 {
        return Result::Err(MinimaxError::NoPossibleMoves);
    }

    let mut outcomes: Vec<Outcome> = Vec::new();
    let mut i: usize = 0;

    while i < moves.len()
        invariant
            0 <= i <= moves.len(),
            moves@ == S::moves_of(v),
            moves@.len() > 0,
            S::status_of(v) == Status::Running(player),
            state@ == v,
            d == depth as nat,
            outcomes@.len() == i as int,
            spec_outcomes::<S>(v, moves@.take(i as int), d) == Result::<
                Seq<Outcome>,
                MinimaxError<S>,
            >::Ok(outcomes@),
            forall|j: int|
                0 <= j < i ==> spec_child_outcome::<S>(v, moves@[j], d) == Result::<
                    Outcome,
                    MinimaxError<S>,
                >::Ok(#[trigger] outcomes@[j]),
            forall|j: int| 0 <= j < i ==> definite_within(#[trigger] outcomes@[j], d),
        decreases moves.len() - i,
    {
        let ghost prefix = outcomes@;
        let mov = moves[i];
        let mut child = state.clone_state();
        let outcome = match child.make_move(&mov) {
            Result::Err(e) => {
                proof {
                    assert(moves@.take(i + 1).drop_last() =~= moves@.take(i as int));
                    assert(moves@.take(i + 1).last() == moves@[i as int]);
                    lemma_outcomes_err_extend::<S>(
                        v,
                        moves@,
                        d,
                        i + 1,
                        MinimaxError::MoveError(e),
                    );
                }
                return Result::Err(MinimaxError::MoveError(e));
            },
            Result::Ok(()) => {
                match child.get_status() {
                    Status::Finished(result) => Outcome::Definite(result, 0),
                    Status::Running(_) => {
                        if depth == 0 {
                            Outcome::Indefinite(child.get_score())
                        } else {
                            match minimax_search(&child, depth - 1) {
                                Result::Err(e) => {
                                    proof {
                                        assert(moves@.take(i + 1).drop_last() =~= moves@.take(
                                            i as int,
                                        ));
                                        assert(moves@.take(i + 1).last() == moves@[i as int]);
                                        lemma_outcomes_err_extend::<S>(v, moves@, d, i + 1, e);
                                    }
                                    return Result::Err(e);
                                },
                                Result::Ok(m) => match m.outcome {
                                    Outcome::Definite(result, dist) => Outcome::Definite(
                                        result,
                                        dist + 1,
                                    ),
                                    Outcome::Indefinite(score) => Outcome::Indefinite(score),
                                },
                            }
                        }
                    },
                }
            },
        };
        outcomes.push(outcome);
        proof {
            assert(spec_child_outcome::<S>(v, moves@[i as int], d) == Result::<
                Outcome,
                MinimaxError<S>,
            >::Ok(outcome));
            assert(moves@.take(i + 1).drop_last() =~= moves@.take(i as int));
            assert(moves@.take(i + 1).last() == moves@[i as int]);
            assert(outcomes@ == prefix.push(outcome));
            assert(spec_outcomes::<S>(v, moves@.take(i + 1), d) == Result::<
                Seq<Outcome>,
                MinimaxError<S>,
            >::Ok(outcomes@));
        }
        i += 1;
    }

    proof {
        assert(moves@.take(moves@.len() as int) =~= moves@);
    }

    let mut best = outcomes[0];
    let mut i: usize = 1;

    proof {
        assert(outcomes@.take(1) =~= seq![outcomes@[0]]);
        assert(spec_best_outcome(player, outcomes@.take(1)) == outcomes@[0]);
    }

    while i < outcomes.len()
        invariant
            1 <= i <= outcomes.len(),
            outcomes@.len() == moves@.len(),
            best == spec_best_outcome(player, outcomes@.take(i as int)),
            exists|j: int| 0 <= j < i && outcomes@[j] == best,
        decreases outcomes.len() - i,
    {
        let ghost prev = best;
        let current = outcomes[i];
        match compare_outcome(player, &best, &current) {
            Ordering::Greater => {},
            _ => {
                best = current;
            },
        }
        proof {
            assert(outcomes@.take(i + 1).drop_last() =~= outcomes@.take(i as int));
            assert(outcomes@.take(i + 1).last() == outcomes@[i as int]);
            assert(spec_best_outcome(player, outcomes@.take(i + 1)) == best);
        }
        i += 1;
    }

    proof {
        assert(outcomes@.take(outcomes@.len() as int) =~= outcomes@);
    }

    let mut best_moves: Vec<S::Move> = Vec::new();
    let mut i: usize = 0;

    while i < moves.len()
        invariant
            0 <= i <= moves.len(),
            moves@ == S::moves_of(v),
            outcomes@.len() == moves@.len(),
            d == depth as nat,
            forall|j: int|
                0 <= j < moves@.len() ==> spec_child_outcome::<S>(v, moves@[j], d) == Result::<
                    Outcome,
                    MinimaxError<S>,
                >::Ok(#[trigger] outcomes@[j]),
            best_moves@ == spec_best_moves::<S>(v, moves@.take(i as int), d, best),
        decreases moves.len() - i,
    {
        let current = outcomes[i];
        if current == best {
            best_moves.push(moves[i]);
        }
        proof {
            assert(moves@.take(i + 1).drop_last() =~= moves@.take(i as int));
            assert(moves@.take(i + 1).last() == moves@[i as int]);
            assert(best_moves@ == spec_best_moves::<S>(v, moves@.take(i + 1), d, best));
        }
        i += 1;
    }

    Result::Ok(Minimax { outcome: best, moves: best_moves })
}

} // verus!

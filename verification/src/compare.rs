//! The preference order over outcomes, relative to a chosen viewpoint player.
//!
//! Outcomes have no absolute order: the same outcome is good for one player
//! and bad for the other, so every comparison is made from an explicit
//! viewpoint. The order places a forced win for the viewpoint above
//! everything, a forced loss below everything, and breaks ties by
//! move-distance (win sooner, lose later, draw sooner); a guaranteed draw sits
//! between heuristic estimates that favor the opponent and those that do not.

use core::cmp::Ordering;

use vstd::prelude::*;

use crate::outcome::{GameResult, Outcome, Player};

verus! {

/// A heuristic score as seen from `viewpoint`: scores favor [`Player::One`]
/// when positive, so the score is negated for [`Player::Two`].
pub open spec fn normalized_score(viewpoint: Player, score: isize) -> int {
    match viewpoint {
        Player::One => score as int,
        Player::Two => -(score as int),
    }
}

/// Three-way comparison of two mathematical integers.
pub open spec fn cmp_int(a: int, b: int) -> Ordering {
    if a < b {
        Ordering::Less
    } else if a == b {
        Ordering::Equal
    } else {
        Ordering::Greater
    }
}

/// The opposite ordering: `Less` and `Greater` exchanged, `Equal` kept.
pub open spec fn invert_ordering(o: Ordering) -> Ordering {
    match o {
        Ordering::Less => Ordering::Greater,
        Ordering::Equal => Ordering::Equal,
        Ordering::Greater => Ordering::Less,
    }
}

/// How two exact results compare from `viewpoint`: a win for the viewpoint
/// beats everything (and sooner is better), a win for the opponent loses to
/// everything (and later is better), and of two draws the nearer one is
/// preferred as a deterministic tie-break.
pub open spec fn spec_cmp_definite(
    viewpoint: Player,
    lhs_result: GameResult,
    lhs_distance: usize,
    rhs_result: GameResult,
    rhs_distance: usize,
) -> Ordering {
    match (lhs_result, rhs_result) {
        (GameResult::Win(lhs_winner), GameResult::Win(rhs_winner)) => {
            if lhs_winner == viewpoint && rhs_winner == viewpoint {
                cmp_int(rhs_distance as int, lhs_distance as int)
            } else if lhs_winner != viewpoint && rhs_winner != viewpoint {
                cmp_int(lhs_distance as int, rhs_distance as int)
            } else if lhs_winner == viewpoint {
                Ordering::Greater
            } else {
                Ordering::Less
            }
        },
        (GameResult::Win(lhs_winner), GameResult::Draw) => if lhs_winner == viewpoint {
            Ordering::Greater
        } else {
            Ordering::Less
        },
        (GameResult::Draw, GameResult::Win(rhs_winner)) => if rhs_winner == viewpoint {
            Ordering::Less
        } else {
            Ordering::Greater
        },
        (GameResult::Draw, GameResult::Draw) => cmp_int(
            rhs_distance as int,
            lhs_distance as int,
        ),
    }
}

/// Whether `lhs` is worse than, equal to, or better than `rhs` from the
/// viewpoint of `viewpoint`.
///
/// An exact result compares against a heuristic estimate as follows: a win
/// for the viewpoint beats any estimate, a win for the opponent loses to any
/// estimate, and a guaranteed draw beats exactly the estimates whose
/// normalized score is negative (those that favor the opponent).
pub open spec fn spec_cmp(viewpoint: Player, lhs: Outcome, rhs: Outcome) -> Ordering {
    match (lhs, rhs) {
        (Outcome::Definite(lhs_result, lhs_distance), Outcome::Definite(rhs_result, rhs_distance)) => spec_cmp_definite(
            viewpoint,
            lhs_result,
            lhs_distance,
            rhs_result,
            rhs_distance,
        ),
        (Outcome::Definite(lhs_result, _), Outcome::Indefinite(rhs_score)) => match lhs_result {
            GameResult::Win(lhs_winner) => if lhs_winner == viewpoint {
                Ordering::Greater
            } else {
                Ordering::Less
            },
            GameResult::Draw => if normalized_score(viewpoint, rhs_score) < 0 {
                Ordering::Greater
            } else {
                Ordering::Less
            },
        },
        (Outcome::Indefinite(lhs_score), Outcome::Definite(rhs_result, _)) => match rhs_result {
            GameResult::Win(rhs_winner) => if rhs_winner == viewpoint {
                Ordering::Less
            } else {
                Ordering::Greater
            },
            GameResult::Draw => if normalized_score(viewpoint, lhs_score) < 0 {
                Ordering::Less
            } else {
                Ordering::Greater
            },
        },
        (Outcome::Indefinite(lhs_score), Outcome::Indefinite(rhs_score)) => cmp_int(
            normalized_score(viewpoint, lhs_score),
            normalized_score(viewpoint, rhs_score),
        ),
    }
}

/// Three-way comparison of two machine integers.
fn cmp_usize(a: usize, b: usize) -> (r: Ordering)
    ensures
        r == cmp_int(a as int, b as int),
{
    if a < b {
        Ordering::Less
    } else if a == b {
        Ordering::Equal
    } else {
        Ordering::Greater
    }
}

/// Three-way comparison of two machine integers.
fn cmp_isize(a: isize, b: isize) -> (r: Ordering)
    ensures
        r == cmp_int(a as int, b as int),
{
    if a < b {
        Ordering::Less
    } else if a == b {
        Ordering::Equal
    } else {
        Ordering::Greater
    }
}

/// Compares `lhs` and `rhs` from the viewpoint of `player`.
///
/// To compare scores normalized for [`Player::Two`] without negating them
/// (which could overflow), the operands are compared in the opposite
/// direction instead.
pub fn compare_outcome(player: Player, lhs: &Outcome, rhs: &Outcome) -> (r: Ordering)
    ensures
        r == spec_cmp(player, *lhs, *rhs),
{
    match (lhs, rhs) {
        (Outcome::Definite(lhs_result, lhs_distance), Outcome::Definite(rhs_result, rhs_distance)) => {
            match (lhs_result, rhs_result) {
                (GameResult::Win(lhs_winner), GameResult::Win(rhs_winner)) => {
                    if *lhs_winner == player && *rhs_winner == player {
                        cmp_usize(*rhs_distance, *lhs_distance)
                    } else if *lhs_winner != player && *rhs_winner != player {
                        cmp_usize(*lhs_distance, *rhs_distance)
                    } else if *lhs_winner == player {
                        Ordering::Greater
                    } else {
                        Ordering::Less
                    }
                },
                (GameResult::Win(lhs_winner), GameResult::Draw) => if *lhs_winner == player {
                    Ordering::Greater
                } else {
                    Ordering::Less
                },
                (GameResult::Draw, GameResult::Win(rhs_winner)) => if *rhs_winner == player {
                    Ordering::Less
                } else {
                    Ordering::Greater
                },
                (GameResult::Draw, GameResult::Draw) => cmp_usize(*rhs_distance, *lhs_distance),
            }
        },
        (Outcome::Definite(lhs_result, _), Outcome::Indefinite(rhs_score)) => match lhs_result {
            GameResult::Win(lhs_winner) => if *lhs_winner == player {
                Ordering::Greater
            } else {
                Ordering::Less
            },
            GameResult::Draw => {
                let negative = match player {
                    Player::One => *rhs_score < 0,
                    Player::Two => *rhs_score > 0,
                };
                if negative {
                    Ordering::Greater
                } else {
                    Ordering::Less
                }
            },
        },
        (Outcome::Indefinite(lhs_score), Outcome::Definite(rhs_result, _)) => match rhs_result {
            GameResult::Win(rhs_winner) => if *rhs_winner == player {
                Ordering::Less
            } else {
                Ordering::Greater
            },
            GameResult::Draw => {
                let negative = match player {
                    Player::One => *lhs_score < 0,
                    Player::Two => *lhs_score > 0,
                };
                if negative {
                    Ordering::Less
                } else {
                    Ordering::Greater
                }
            },
        },
        (Outcome::Indefinite(lhs_score), Outcome::Indefinite(rhs_score)) => match player {
            Player::One => cmp_isize(*lhs_score, *rhs_score),
            Player::Two => cmp_isize(*rhs_score, *lhs_score),
        },
    }
}

/// Two outcomes compare equal exactly when they are the same outcome: the
/// order never identifies two distinct outcomes.
pub proof fn lemma_compare_equal_iff_same(player: Player, lhs: Outcome, rhs: Outcome)
    ensures
        spec_cmp(player, lhs, rhs) == Ordering::Equal <==> lhs == rhs,
{
}

/// Antisymmetry: comparing a pair of outcomes in one order yields the exact
/// inverse of comparing them in the other order.
pub proof fn lemma_compare_antisymmetric(player: Player, lhs: Outcome, rhs: Outcome)
    ensures
        spec_cmp(player, lhs, rhs) == invert_ordering(spec_cmp(player, rhs, lhs)),
{
}

/// Transitivity of "not worse": the order is a total preference order, so
/// chained non-losses compose.
pub proof fn lemma_compare_transitive(player: Player, a: Outcome, b: Outcome, c: Outcome)
    requires
        spec_cmp(player, a, b) != Ordering::Less,
        spec_cmp(player, b, c) != Ordering::Less,
    ensures
        spec_cmp(player, a, c) != Ordering::Less,
{
}

/// Win dominance: a forced win for the viewpoint beats a forced win for the
/// opponent, whatever the two distances; more generally it beats every
/// outcome that is not itself a win for the viewpoint.
pub proof fn lemma_win_dominance(player: Player, d1: usize, d2: usize, other: Outcome)
    requires
        forall|d: usize| other != Outcome::Definite(GameResult::Win(player), d),
    ensures
        spec_cmp(
            player,
            Outcome::Definite(GameResult::Win(player), d1),
            Outcome::Definite(GameResult::Win(player.spec_other()), d2),
        ) == Ordering::Greater,
        spec_cmp(player, Outcome::Definite(GameResult::Win(player), d1), other)
            == Ordering::Greater,
{
}

/// Faster-win preference: of two forced wins for the viewpoint, the nearer
/// one is preferred.
pub proof fn lemma_faster_win(player: Player, d1: usize, d2: usize)
    requires
        d1 < d2,
    ensures
        spec_cmp(
            player,
            Outcome::Definite(GameResult::Win(player), d1),
            Outcome::Definite(GameResult::Win(player), d2),
        ) == Ordering::Greater,
{
}

/// Slower-loss preference: of two forced wins for the opponent, the farther
/// one is preferred.
pub proof fn lemma_slower_loss(player: Player, d1: usize, d2: usize)
    requires
        d1 > d2,
    ensures
        spec_cmp(
            player,
            Outcome::Definite(GameResult::Win(player.spec_other()), d1),
            Outcome::Definite(GameResult::Win(player.spec_other()), d2),
        ) == Ordering::Greater,
{
}

/// The same outcome with the two player identities exchanged: winners are
/// swapped and heuristic scores are negated, distances kept.
pub open spec fn mirror_result(result: GameResult) -> GameResult {
    match result {
        GameResult::Draw => GameResult::Draw,
        GameResult::Win(player) => GameResult::Win(player.spec_other()),
    }
}

/// The same outcome with the two player identities exchanged.
pub open spec fn mirror_outcome(outcome: Outcome) -> Outcome {
    match outcome {
        Outcome::Definite(result, distance) => Outcome::Definite(mirror_result(result), distance),
        Outcome::Indefinite(score) => Outcome::Indefinite((-(score as int)) as isize),
    }
}

/// Viewpoint symmetry: comparing two outcomes from one viewpoint equals
/// comparing the mirrored outcomes from the other viewpoint. Mirroring
/// negates heuristic scores, so the one score with no negation in range is
/// excluded.
pub proof fn lemma_viewpoint_symmetry(player: Player, lhs: Outcome, rhs: Outcome)
    requires
        lhs matches Outcome::Indefinite(s) ==> s != isize::MIN,
        rhs matches Outcome::Indefinite(s) ==> s != isize::MIN,
    ensures
        spec_cmp(player, lhs, rhs) == spec_cmp(
            player.spec_other(),
            mirror_outcome(lhs),
            mirror_outcome(rhs),
        ),
{
}

/// For a pair of outcomes that differ only by the player identities being
/// swapped, one viewpoint's comparison is the exact inverse of the other's.
pub proof fn lemma_viewpoint_symmetry_inverted(player: Player, outcome: Outcome)
    requires
        outcome matches Outcome::Indefinite(s) ==> s != isize::MIN,
    ensures
        spec_cmp(player, outcome, mirror_outcome(outcome)) == invert_ordering(
            spec_cmp(player.spec_other(), outcome, mirror_outcome(outcome)),
        ),
{
    let mirrored = mirror_outcome(outcome);
    lemma_viewpoint_symmetry(player, outcome, mirrored);
    assert(mirror_outcome(mirrored) == outcome);
    lemma_compare_antisymmetric(player.spec_other(), outcome, mirrored);
}

} // verus!

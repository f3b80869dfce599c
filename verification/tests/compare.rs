use std::cmp::Ordering;

use minimax::compare_outcome;
use minimax::{GameResult, Outcome, Player};

fn sample_outcomes() -> Vec<Outcome> {
    vec![
        Outcome::Definite(GameResult::Win(Player::One), 0),
        Outcome::Definite(GameResult::Win(Player::One), 1),
        Outcome::Definite(GameResult::Win(Player::One), 5),
        Outcome::Definite(GameResult::Win(Player::Two), 0),
        Outcome::Definite(GameResult::Win(Player::Two), 1),
        Outcome::Definite(GameResult::Win(Player::Two), 5),
        Outcome::Definite(GameResult::Draw, 0),
        Outcome::Definite(GameResult::Draw, 3),
        Outcome::Indefinite(-7),
        Outcome::Indefinite(-1),
        Outcome::Indefinite(0),
        Outcome::Indefinite(1),
        Outcome::Indefinite(7),
    ]
}

fn mirror(outcome: Outcome) -> Outcome {
    match outcome {
        Outcome::Definite(GameResult::Draw, d) => Outcome::Definite(GameResult::Draw, d),
        Outcome::Definite(GameResult::Win(Player::One), d) => {
            Outcome::Definite(GameResult::Win(Player::Two), d)
        }
        Outcome::Definite(GameResult::Win(Player::Two), d) => {
            Outcome::Definite(GameResult::Win(Player::One), d)
        }
        Outcome::Indefinite(score) => Outcome::Indefinite(-score),
    }
}

#[test]
fn compare_antisymmetry() {
    for player in [Player::One, Player::Two] {
        for &a in sample_outcomes().iter() {
            for &b in sample_outcomes().iter() {
                assert_eq!(
                    compare_outcome(player, &a, &b),
                    compare_outcome(player, &b, &a).reverse()
                );
            }
        }
    }
}

#[test]
fn compare_equal_iff_same() {
    for player in [Player::One, Player::Two] {
        for &a in sample_outcomes().iter() {
            for &b in sample_outcomes().iter() {
                assert_eq!(compare_outcome(player, &a, &b) == Ordering::Equal, a == b);
            }
        }
    }
}

#[test]
fn compare_viewpoint_symmetry() {
    for &a in sample_outcomes().iter() {
        for &b in sample_outcomes().iter() {
            assert_eq!(
                compare_outcome(Player::One, &a, &b),
                compare_outcome(Player::Two, &mirror(a), &mirror(b))
            );
        }
        // For a pair differing only by swapped identities, the two viewpoints
        // give exactly inverted answers.
        assert_eq!(
            compare_outcome(Player::One, &a, &mirror(a)),
            compare_outcome(Player::Two, &a, &mirror(a)).reverse()
        );
    }
}

#[test]
fn win_dominance() {
    for &d1 in [0usize, 1, 5, 100].iter() {
        for &d2 in [0usize, 1, 5, 100].iter() {
            assert_eq!(
                compare_outcome(
                    Player::One,
                    &Outcome::Definite(GameResult::Win(Player::One), d1),
                    &Outcome::Definite(GameResult::Win(Player::Two), d2),
                ),
                Ordering::Greater
            );
            assert_eq!(
                compare_outcome(
                    Player::Two,
                    &Outcome::Definite(GameResult::Win(Player::Two), d1),
                    &Outcome::Definite(GameResult::Win(Player::One), d2),
                ),
                Ordering::Greater
            );
        }
    }
    // A win for the viewpoint also beats draws and any heuristic estimate.
    assert_eq!(
        compare_outcome(
            Player::One,
            &Outcome::Definite(GameResult::Win(Player::One), 9),
            &Outcome::Definite(GameResult::Draw, 0),
        ),
        Ordering::Greater
    );
    assert_eq!(
        compare_outcome(
            Player::One,
            &Outcome::Definite(GameResult::Win(Player::One), 9),
            &Outcome::Indefinite(isize::MAX),
        ),
        Ordering::Greater
    );
}

#[test]
fn faster_win_preference() {
    for player in [Player::One, Player::Two] {
        assert_eq!(
            compare_outcome(
                player,
                &Outcome::Definite(GameResult::Win(player), 1),
                &Outcome::Definite(GameResult::Win(player), 5),
            ),
            Ordering::Greater
        );
    }
}

#[test]
fn slower_loss_preference() {
    assert_eq!(
        compare_outcome(
            Player::One,
            &Outcome::Definite(GameResult::Win(Player::Two), 5),
            &Outcome::Definite(GameResult::Win(Player::Two), 1),
        ),
        Ordering::Greater
    );
    assert_eq!(
        compare_outcome(
            Player::Two,
            &Outcome::Definite(GameResult::Win(Player::One), 5),
            &Outcome::Definite(GameResult::Win(Player::One), 1),
        ),
        Ordering::Greater
    );
}

#[test]
fn draw_versus_heuristic() {
    let draw = Outcome::Definite(GameResult::Draw, 2);
    // A heuristic that favors the opponent is worse than a guaranteed draw;
    // a non-negative one is preferred over it.
    assert_eq!(
        compare_outcome(Player::One, &draw, &Outcome::Indefinite(-1)),
        Ordering::Greater
    );
    assert_eq!(compare_outcome(Player::One, &draw, &Outcome::Indefinite(0)), Ordering::Less);
    assert_eq!(compare_outcome(Player::One, &draw, &Outcome::Indefinite(3)), Ordering::Less);
    // For the second player the score is negated before the sign test.
    assert_eq!(
        compare_outcome(Player::Two, &draw, &Outcome::Indefinite(1)),
        Ordering::Greater
    );
    assert_eq!(compare_outcome(Player::Two, &draw, &Outcome::Indefinite(0)), Ordering::Less);
    assert_eq!(compare_outcome(Player::Two, &draw, &Outcome::Indefinite(-3)), Ordering::Less);
    // And the swapped operand order inverts the answer.
    assert_eq!(
        compare_outcome(Player::One, &Outcome::Indefinite(-1), &draw),
        Ordering::Less
    );
    assert_eq!(
        compare_outcome(Player::One, &Outcome::Indefinite(0), &draw),
        Ordering::Greater
    );
}

#[test]
fn heuristic_ordering() {
    assert_eq!(
        compare_outcome(Player::One, &Outcome::Indefinite(3), &Outcome::Indefinite(5)),
        Ordering::Less
    );
    assert_eq!(
        compare_outcome(Player::Two, &Outcome::Indefinite(3), &Outcome::Indefinite(5)),
        Ordering::Greater
    );
    assert_eq!(
        compare_outcome(Player::Two, &Outcome::Indefinite(4), &Outcome::Indefinite(4)),
        Ordering::Equal
    );
}

#[test]
fn draw_distance_tie_break() {
    // Of two guaranteed draws the nearer one is preferred, for both players.
    for player in [Player::One, Player::Two] {
        assert_eq!(
            compare_outcome(
                player,
                &Outcome::Definite(GameResult::Draw, 1),
                &Outcome::Definite(GameResult::Draw, 4),
            ),
            Ordering::Greater
        );
    }
}

#[test]
fn player_other_and_winner() {
    assert_eq!(Player::One.other(), Player::Two);
    assert_eq!(Player::Two.other(), Player::One);
    assert_eq!(Player::One.other().other(), Player::One);
    assert_eq!(GameResult::Draw.winner(), None);
    assert_eq!(GameResult::Win(Player::One).winner(), Some(Player::One));
    assert_eq!(GameResult::Win(Player::Two).winner(), Some(Player::Two));
}

use minimax::tic_tac_toe::{GameResult, MoveError, Place, Player, Status, TicTacToe};
use minimax::{
    GameResult as EngineResult, MinimaxError, Outcome, Player as EnginePlayer,
};

#[test]
fn test_tic_tac_toe() {
    let mut game = TicTacToe::new();

    assert_eq!(game.make_move(Player::X, Place::Center), Ok(()));
    assert_eq!(game.make_move(Player::O, Place::UpperLeft), Ok(()));
    assert_eq!(game.make_move(Player::X, Place::LowerLeft), Ok(()));

    assert_eq!(
        game.make_move(Player::X, Place::UpperRight),
        Err(MoveError::WrongPlayer(Player::O))
    );

    assert_eq!(
        game.make_move(Player::O, Place::UpperLeft),
        Err(MoveError::PlaceAlreadyUsed(Place::UpperLeft, Player::O))
    );

    assert_eq!(game.make_move(Player::O, Place::Upper), Ok(()));
    assert_eq!(game.make_move(Player::X, Place::UpperRight), Ok(()));

    assert_eq!(game.get_status(), Status::Finished(GameResult::Win(Player::X)));

    assert_eq!(
        game.make_move(Player::O, Place::LowerRight),
        Err(MoveError::InvalidStatus(Status::Finished(GameResult::Win(Player::X))))
    );
}

#[test]
fn terminal_search_rejected() {
    let mut game = TicTacToe::new();
    game.make_move(Player::X, Place::Center).unwrap();
    game.make_move(Player::O, Place::UpperLeft).unwrap();
    game.make_move(Player::X, Place::LowerLeft).unwrap();
    game.make_move(Player::O, Place::Upper).unwrap();
    game.make_move(Player::X, Place::UpperRight).unwrap();
    assert_eq!(game.get_status(), Status::Finished(GameResult::Win(Player::X)));

    for depth in [0usize, 1, 5] {
        assert!(matches!(
            game.minimax(depth),
            Err(MinimaxError::GameAlreadyFinished)
        ));
    }
}

#[test]
fn depth_zero_degeneration() {
    // With no budget, every non-terminal child is valued by its immediate
    // heuristic score (the default 0), and all nine openings tie.
    let game = TicTacToe::new();
    let Ok(m) = game.minimax(0) else {
        panic!("search failed on the opening position");
    };
    assert_eq!(m.outcome, Outcome::Indefinite(0));
    assert_eq!(
        m.moves,
        vec![
            Place::UpperLeft,
            Place::Upper,
            Place::UpperRight,
            Place::Left,
            Place::Center,
            Place::Right,
            Place::LowerLeft,
            Place::Lower,
            Place::LowerRight,
        ]
    );
}

#[test]
fn double_threat_returns_both_wins() {
    // X holds UpperLeft, Center and LowerLeft and can complete a line at
    // UpperRight or at Left: both, and nothing else, must be returned as
    // immediate wins at every depth budget of at least 1.
    let mut game = TicTacToe::new();
    game.make_move(Player::X, Place::UpperLeft).unwrap();
    game.make_move(Player::O, Place::Upper).unwrap();
    game.make_move(Player::X, Place::Center).unwrap();
    game.make_move(Player::O, Place::Right).unwrap();
    game.make_move(Player::X, Place::LowerLeft).unwrap();
    game.make_move(Player::O, Place::LowerRight).unwrap();
    assert_eq!(game.get_status(), Status::Running(Player::X));

    for depth in [1usize, 2, 5] {
        let Ok(m) = game.minimax(depth) else {
            panic!("search failed on a running position");
        };
        assert_eq!(
            m.outcome,
            Outcome::Definite(EngineResult::Win(EnginePlayer::One), 0)
        );
        assert_eq!(m.moves, vec![Place::UpperRight, Place::Left]);
    }
}

#[test]
fn forced_loss_delays_and_ties() {
    // X holds UpperLeft, Center and LowerLeft with three winning threats; O
    // to move. Every O move loses in one further ply, so all four are tied.
    let mut game = TicTacToe::new();
    game.make_move(Player::X, Place::UpperLeft).unwrap();
    game.make_move(Player::O, Place::Upper).unwrap();
    game.make_move(Player::X, Place::Center).unwrap();
    game.make_move(Player::O, Place::Right).unwrap();
    game.make_move(Player::X, Place::LowerLeft).unwrap();
    assert_eq!(game.get_status(), Status::Running(Player::O));

    for depth in [2usize, 5] {
        let Ok(m) = game.minimax(depth) else {
            panic!("search failed on a running position");
        };
        assert_eq!(
            m.outcome,
            Outcome::Definite(EngineResult::Win(EnginePlayer::One), 1)
        );
        assert_eq!(
            m.moves,
            vec![Place::UpperRight, Place::Left, Place::Lower, Place::LowerRight]
        );
    }
}

#[test]
fn distance_accumulates_over_recursion() {
    // From the triple-threat position with O to move, the loss is one ply
    // past the recursive evaluation of any tied move's child: the root
    // reports distance 1, the child searched one budget lower reports 0.
    let mut game = TicTacToe::new();
    game.make_move(Player::X, Place::UpperLeft).unwrap();
    game.make_move(Player::O, Place::Upper).unwrap();
    game.make_move(Player::X, Place::Center).unwrap();
    game.make_move(Player::O, Place::Right).unwrap();
    game.make_move(Player::X, Place::LowerLeft).unwrap();

    let Ok(root) = game.minimax(2) else {
        panic!("search failed on a running position");
    };
    assert_eq!(
        root.outcome,
        Outcome::Definite(EngineResult::Win(EnginePlayer::One), 1)
    );

    let chosen = root.moves[0];
    game.make_move(Player::O, chosen).unwrap();
    let Ok(child) = game.minimax(1) else {
        panic!("search failed on a running position");
    };
    assert_eq!(
        child.outcome,
        Outcome::Definite(EngineResult::Win(EnginePlayer::One), 0)
    );
}

#[test]
fn center_corner_is_drawn() {
    // After X takes the center and O a corner, perfect play ends in a draw
    // when the board fills. The reported distance counts the plies after the
    // chosen move: the board is full seven plies from here, so the best move
    // leads to a position whose draw is six further plies away.
    let mut game = TicTacToe::new();
    game.make_move(Player::X, Place::Center).unwrap();
    game.make_move(Player::O, Place::UpperLeft).unwrap();

    let Ok(m) = game.minimax(7) else {
        panic!("search failed on a running position");
    };
    assert_eq!(m.outcome, Outcome::Definite(EngineResult::Draw, 6));
}

#[test]
fn possible_moves_shrink_and_empty_when_finished() {
    let mut game = TicTacToe::new();
    assert_eq!(game.possible_moves().len(), 9);
    game.make_move(Player::X, Place::Center).unwrap();
    assert_eq!(game.possible_moves().len(), 8);
    assert!(!game.possible_moves().contains(&Place::Center));
    assert_eq!(game.get_place(Place::Center), Some(Player::X));
    assert_eq!(game.get_place(Place::Upper), None);

    game.make_move(Player::O, Place::UpperLeft).unwrap();
    game.make_move(Player::X, Place::LowerLeft).unwrap();
    game.make_move(Player::O, Place::Upper).unwrap();
    game.make_move(Player::X, Place::UpperRight).unwrap();
    assert_eq!(game.possible_moves(), Vec::new());
    assert_eq!(GameResult::Win(Player::X).winner(), Some(Player::X));
    assert_eq!(GameResult::Draw.winner(), None);
}

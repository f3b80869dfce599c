use minimax::game_2048::{Direction, Game2048, Move, MoveError, Place, Player, Status};
use minimax::{GameResult as EngineResult, Outcome, Player as EnginePlayer};

#[test]
fn test_2048() {
    let mut game = Game2048::new();

    assert_eq!(
        game.make_move(Move::Human(Direction::Up)),
        Err(MoveError::WrongPlayer(Player::Robot))
    );

    assert_eq!(
        game.make_move(Move::Robot(Place::from_xy(1, 1).unwrap(), 1)),
        Err(MoveError::ValueNotAllowed(1))
    );

    assert_eq!(
        game.make_move(Move::Robot(Place::from_xy(1, 1).unwrap(), 2)),
        Ok(())
    );

    assert_eq!(game.make_move(Move::Human(Direction::Down)), Ok(()));

    assert_eq!(
        game.make_move(Move::Robot(Place::from_xy(1, 0).unwrap(), 2)),
        Err(MoveError::PlaceAlreadyFilled(Place::from_xy(1, 0).unwrap()))
    );

    assert_eq!(
        game.make_move(Move::Robot(Place::from_xy(2, 3).unwrap(), 2)),
        Ok(())
    );

    assert_eq!(game.make_move(Move::Human(Direction::Down)), Ok(()));

    assert_eq!(
        game.make_move(Move::Robot(Place::from_xy(2, 3).unwrap(), 4)),
        Ok(())
    );

    assert_eq!(game.make_move(Move::Human(Direction::Left)), Ok(()));

    assert_eq!(
        game.make_move(Move::Robot(Place::from_xy(1, 3).unwrap(), 2)),
        Ok(())
    );

    assert_eq!(game.make_move(Move::Human(Direction::Down)), Ok(()));

    assert_eq!(game.get_status(), Status::Running(Player::Robot));

    for y in 0..4 {
        for x in 0..4 {
            let value = game.get_value(Place::from_xy(x, y).unwrap());
            match (x, y) {
                (0, 0) => assert_eq!(value, 8),
                (1, 0) => assert_eq!(value, 2),
                _ => assert_eq!(value, 0),
            }
        }
    }
}

#[test]
fn test_finish() {
    let mut game = Game2048::from_grid(
        Status::Running(Player::Robot),
        &[0, 4, 2, 4, 4, 2, 4, 2, 2, 4, 2, 4, 4, 2, 4, 2],
    );

    assert_eq!(
        game.make_move(Move::Robot(Place::from_xy(0, 0).unwrap(), 2)),
        Ok(())
    );

    assert_eq!(game.get_status(), Status::Finished);
}

#[test]
fn test_interleaved() {
    let mut game = Game2048::new();

    assert_eq!(
        game.make_move(Move::Robot(Place::from_xy(1, 0).unwrap(), 4)),
        Ok(())
    );
    assert_eq!(game.make_move(Move::Human(Direction::Left)), Ok(()));

    assert_eq!(
        game.make_move(Move::Robot(Place::from_xy(1, 1).unwrap(), 2)),
        Ok(())
    );
    assert_eq!(game.make_move(Move::Human(Direction::Left)), Ok(()));

    assert_eq!(
        game.make_move(Move::Robot(Place::from_xy(0, 3).unwrap(), 4)),
        Ok(())
    );
    assert_eq!(game.make_move(Move::Human(Direction::Down)), Ok(()));

    for y in 0..4 {
        for x in 0..4 {
            let value = game.get_value(Place::from_xy(x, y).unwrap());
            match (x, y) {
                (0, 0) => assert_eq!(value, 4),
                (0, 1) => assert_eq!(value, 2),
                (0, 2) => assert_eq!(value, 4),
                _ => assert_eq!(value, 0),
            }
        }
    }
}

#[test]
fn test_false_finish() {
    let mut game = Game2048::from_grid(
        Status::Running(Player::Robot),
        &[4, 8, 2, 2, 64, 128, 4, 4, 8, 8, 16, 2, 4, 4, 2, 0],
    );

    assert_eq!(
        game.make_move(Move::Robot(Place::from_xy(3, 3).unwrap(), 4)),
        Ok(())
    );

    assert_eq!(game.get_status(), Status::Running(Player::Human));
}

#[test]
fn place_coordinates() {
    let place = Place::from_xy(2, 3).unwrap();
    assert_eq!(place.get_xy(), (2, 3));
    assert_eq!(Place::from_xy(0, 0).unwrap().get_xy(), (0, 0));
    assert!(Place::from_xy(4, 0).is_err());
    assert!(Place::from_xy(0, 4).is_err());
}

#[test]
fn direction_values_and_opposites() {
    assert_eq!(
        Direction::values(),
        vec![Direction::Up, Direction::Down, Direction::Left, Direction::Right]
    );
    assert_eq!(Direction::Up.opposite(), Direction::Down);
    assert_eq!(Direction::Down.opposite(), Direction::Up);
    assert_eq!(Direction::Left.opposite(), Direction::Right);
    assert_eq!(Direction::Right.opposite(), Direction::Left);
}

#[test]
fn move_players_and_other() {
    assert_eq!(Move::Human(Direction::Up).get_player(), Player::Human);
    assert_eq!(
        Move::Robot(Place::from_xy(0, 0).unwrap(), 2).get_player(),
        Player::Robot
    );
    assert_eq!(Player::Human.other(), Player::Robot);
    assert_eq!(Player::Robot.other(), Player::Human);
}

#[test]
fn grid_values_accessors() {
    let values = [0, 4, 2, 4, 4, 2, 4, 2, 2, 4, 2, 4, 4, 2, 4, 2];
    let game = Game2048::from_grid(Status::Running(Player::Robot), &values);
    assert_eq!(game.get_values(), &values);
    assert_eq!(game.get_value(Place::from_xy(1, 0).unwrap()), 4);
    assert_eq!(game.get_value(Place::from_xy(0, 0).unwrap()), 0);
}

#[test]
fn locking_placement_preferred() {
    // Only one cell is empty; a 2 there locks the board and wins for the
    // robot, while a 4 leaves the human a merge. The winning placement, and
    // only it, must be returned.
    let game = Game2048::from_grid(
        Status::Running(Player::Robot),
        &[0, 4, 2, 4, 4, 2, 4, 2, 2, 4, 2, 4, 4, 2, 4, 2],
    );

    let Ok(m) = game.minimax(1) else {
        panic!("search failed on a running position");
    };
    assert_eq!(
        m.outcome,
        Outcome::Definite(EngineResult::Win(EnginePlayer::Two), 0)
    );
    assert_eq!(m.moves, vec![Move::Robot(Place::from_xy(0, 0).unwrap(), 2)]);
}

#[test]
fn fresh_board_depth_zero() {
    // With no budget every placement on the empty board ties at the neutral
    // heuristic: a 2 and a 4 on each of the sixteen cells.
    let game = Game2048::new();
    let Ok(m) = game.minimax(0) else {
        panic!("search failed on the opening position");
    };
    assert_eq!(m.outcome, Outcome::Indefinite(0));
    assert_eq!(m.moves.len(), 32);
    assert_eq!(m.moves[0], Move::Robot(Place::from_xy(0, 0).unwrap(), 2));
    assert_eq!(m.moves[1], Move::Robot(Place::from_xy(0, 0).unwrap(), 4));
    assert_eq!(m.moves[31], Move::Robot(Place::from_xy(3, 3).unwrap(), 4));
}

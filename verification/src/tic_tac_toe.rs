//! Tic-tac-toe: a three-in-a-row game on a 3x3 grid, implementing the search
//! engine's capability contract.
//!
//! The game is modelled by a view holding the status and the grid as a
//! sequence of optionally-marked cells; every executable method is tied to
//! spec functions over that view.

use vstd::prelude::*;

use crate::outcome::{
    GameResult as MinimaxGameResult, Player as MinimaxPlayer, Status as MinimaxStatus,
};
use crate::search::{definite_within, minimax_search, spec_minimax, GameState, MinimaxResult};

verus! {

const GRID_SIZE: usize = 9;

/// One of the nine cells of the grid.
#[derive(Clone, Copy, Debug, Hash, PartialEq, Eq, Structural)]
pub enum Place {
    UpperLeft,
    Upper,
    UpperRight,
    Left,
    Center,
    Right,
    LowerLeft,
    Lower,
    LowerRight,
}

/// The two marks; `X` moves first.
#[derive(Clone, Copy, Debug, Hash, PartialEq, Eq, Structural)]
pub enum Player {
    X,
    O,
}

/// The result of a finished game.
#[derive(Clone, Copy, Debug, Hash, PartialEq, Eq, Structural)]
pub enum GameResult {
    Draw,
    Win(Player),
}

/// Whether the game is running (and who is to move) or finished (and how).
#[derive(Clone, Copy, Debug, Hash, PartialEq, Eq, Structural)]
pub enum Status {
    Running(Player),
    Finished(GameResult),
}

/// A tic-tac-toe position: the status and the nine cells.
#[derive(Clone, Copy, Debug, Hash, PartialEq, Eq)]
pub struct TicTacToe {
    status: Status,
    grid: [Option<Player>; GRID_SIZE],
}

/// Why a move was rejected; a rejected move leaves the game unchanged.
#[derive(Clone, Copy, Debug, Hash, PartialEq, Eq, Structural)]
pub enum MoveError {
    /// The game is already finished.
    InvalidStatus(Status),
    /// It is the returned player's turn, not the caller's.
    WrongPlayer(Player),
    /// The place is already marked, by the returned player.
    PlaceAlreadyUsed(Place, Player),
}

/// The abstract state of a game: the status and the grid as a sequence of
/// nine optionally-marked cells, indexed row by row from the upper left.
pub struct TicTacToeView {
    pub status: Status,
    pub grid: Seq<Option<Player>>,
}

impl View for TicTacToe {
    type V = TicTacToeView;

    closed spec fn view(&self) -> TicTacToeView {
        TicTacToeView { status: self.status, grid: self.grid@ }
    }
}

impl Player {
    /// The opposing mark.
    pub open spec fn spec_other(self) -> Player {
        match self {
            Player::X => Player::O,
            Player::O => Player::X,
        }
    }

    #[verifier::when_used_as_spec(spec_other)]
    fn other(self) -> (r: Player)
        ensures
            r == self.spec_other(),
    {
        match self {
            Player::X => Player::O,
            Player::O => Player::X,
        }
    }
}

impl GameResult {
    /// The winning player, or `None` for a draw.
    pub open spec fn spec_winner(self) -> Option<Player> {
        match self {
            GameResult::Draw => None,
            GameResult::Win(player) => Some(player),
        }
    }

    /// The winning player, or `None` for a draw.
    #[verifier::when_used_as_spec(spec_winner)]
    pub fn winner(self) -> (r: Option<Player>)
        ensures
            r == self.spec_winner(),
    {
        match self {
            GameResult::Draw => None,
            GameResult::Win(player) => Some(player),
        }
    }
}

/// The grid index of a place, row by row from the upper left.
pub open spec fn place_index(place: Place) -> int {
    match place {
        Place::UpperLeft => 0,
        Place::Upper => 1,
        Place::UpperRight => 2,
        Place::Left => 3,
        Place::Center => 4,
        Place::Right => 5,
        Place::LowerLeft => 6,
        Place::Lower => 7,
        Place::LowerRight => 8,
    }
}

/// The place at a grid index.
pub open spec fn index_place(index: int) -> Place {
    if index == 0 {
        Place::UpperLeft
    } else if index == 1 {
        Place::Upper
    } else if index == 2 {
        Place::UpperRight
    } else if index == 3 {
        Place::Left
    } else if index == 4 {
        Place::Center
    } else if index == 5 {
        Place::Right
    } else if index == 6 {
        Place::LowerLeft
    } else if index == 7 {
        Place::Lower
    } else {
        Place::LowerRight
    }
}

/// The player holding all three places of a line, if any; three empty cells
/// hold no winner.
pub open spec fn triple_winner(
    grid: Seq<Option<Player>>,
    a: Place,
    b: Place,
    c: Place,
) -> Option<Player> {
    if grid[place_index(b)] == grid[place_index(a)] && grid[place_index(c)] == grid[place_index(a)] {
        grid[place_index(a)]
    } else {
        None
    }
}

/// The winner of the first completed line, scanning the three rows, the three
/// columns, and the two diagonals in that order.
pub open spec fn spec_line_winner(grid: Seq<Option<Player>>) -> Option<Player> {
    let rows = if triple_winner(grid, Place::UpperLeft, Place::Upper, Place::UpperRight) is Some {
        triple_winner(grid, Place::UpperLeft, Place::Upper, Place::UpperRight)
    } else if triple_winner(grid, Place::Left, Place::Center, Place::Right) is Some {
        triple_winner(grid, Place::Left, Place::Center, Place::Right)
    } else if triple_winner(grid, Place::LowerLeft, Place::Lower, Place::LowerRight) is Some {
        triple_winner(grid, Place::LowerLeft, Place::Lower, Place::LowerRight)
    } else {
        None
    };
    let columns = if rows is Some {
        rows
    } else if triple_winner(grid, Place::UpperLeft, Place::Left, Place::LowerLeft) is Some {
        triple_winner(grid, Place::UpperLeft, Place::Left, Place::LowerLeft)
    } else if triple_winner(grid, Place::Upper, Place::Center, Place::Lower) is Some {
        triple_winner(grid, Place::Upper, Place::Center, Place::Lower)
    } else if triple_winner(grid, Place::UpperRight, Place::Right, Place::LowerRight) is Some {
        triple_winner(grid, Place::UpperRight, Place::Right, Place::LowerRight)
    } else {
        None
    };
    if columns is Some {
        columns
    } else if triple_winner(grid, Place::UpperLeft, Place::Center, Place::LowerRight) is Some {
        triple_winner(grid, Place::UpperLeft, Place::Center, Place::LowerRight)
    } else if triple_winner(grid, Place::UpperRight, Place::Center, Place::LowerLeft) is Some {
        triple_winner(grid, Place::UpperRight, Place::Center, Place::LowerLeft)
    } else {
        None
    }
}

/// Whether every cell is marked.
pub open spec fn spec_all_filled(grid: Seq<Option<Player>>) -> bool {
    forall|i: int| 0 <= i < 9 ==> grid[i] is Some
}

/// The result of the position, if it is terminal: a win once a line is
/// completed, a draw once every cell is marked without one.
pub open spec fn spec_check_win(grid: Seq<Option<Player>>) -> Option<GameResult> {
    match spec_line_winner(grid) {
        Some(player) => Some(GameResult::Win(player)),
        None => if spec_all_filled(grid) {
            Some(GameResult::Draw)
        } else {
            None
        },
    }
}

/// The open places of the grid among the first `n` cells, in grid order.
pub open spec fn spec_open_places(grid: Seq<Option<Player>>, n: int) -> Seq<Place>
    decreases n,
{
    if n <= 0 {
        Seq::empty()
    } else {
        let rest = spec_open_places(grid, n - 1);
        if grid[n - 1] is None {
            rest.push(index_place(n - 1))
        } else {
            rest
        }
    }
}

/// The legal moves: every open place while the game runs, none once it is
/// finished.
pub open spec fn spec_possible_moves(v: TicTacToeView) -> Seq<Place> {
    match v.status {
        Status::Running(_) => spec_open_places(v.grid, 9),
        Status::Finished(_) => Seq::empty(),
    }
}

/// The position after `player` marks `place`, or the error rejecting the
/// move: the game must be running, the place unmarked, and the mover the one
/// whose turn it is. A legal move marks the place and either finishes the
/// game or passes the turn.
pub open spec fn spec_make_move(v: TicTacToeView, player: Player, place: Place) -> Result<
    TicTacToeView,
    MoveError,
> {
    match v.status {
        Status::Finished(_) => Result::Err(MoveError::InvalidStatus(v.status)),
        Status::Running(status_player) => match v.grid[place_index(place)] {
            Some(place_player) => Result::Err(MoveError::PlaceAlreadyUsed(place, place_player)),
            None => if status_player != player {
                Result::Err(MoveError::WrongPlayer(status_player))
            } else {
                let grid = v.grid.update(place_index(place), Some(player));
                let status = match spec_check_win(grid) {
                    Some(result) => Status::Finished(result),
                    None => Status::Running(player.spec_other()),
                };
                Result::Ok(TicTacToeView { status, grid })
            },
        },
    }
}

/// The opening position: an empty grid, `X` to move.
pub open spec fn spec_init() -> TicTacToeView {
    TicTacToeView { status: Status::Running(Player::X), grid: Seq::new(9, |i: int| None) }
}

impl TicTacToe {
    /// An empty grid with `X` to move.
    pub fn new() -> (r: TicTacToe)
        ensures
            r@ == spec_init(),
    {
        let r = TicTacToe { status: Status::Running(Player::X), grid: [None; GRID_SIZE] };
        proof {
            assert(r@.grid =~= spec_init().grid);
        }
        r
    }

    /// The current status.
    pub fn get_status(&self) -> (r: Status)
        ensures
            r == self@.status,
    {
        self.status
    }

    /// The grid index of a place.
    fn get_grid_index(place: Place) -> (r: usize)
        ensures
            r == place_index(place),
    {
        match place {
            Place::UpperLeft => 0,
            Place::Upper => 1,
            Place::UpperRight => 2,
            Place::Left => 3,
            Place::Center => 4,
            Place::Right => 5,
            Place::LowerLeft => 6,
            Place::Lower => 7,
            Place::LowerRight => 8,
        }
    }

    /// The place at a grid index.
    fn get_grid_place(index: usize) -> (r: Place)
        requires
            index < 9,
        ensures
            r == index_place(index as int),
    {
        if index == 0 {
            Place::UpperLeft
        } else if index == 1 {
            Place::Upper
        } else if index == 2 {
            Place::UpperRight
        } else if index == 3 {
            Place::Left
        } else if index == 4 {
            Place::Center
        } else if index == 5 {
            Place::Right
        } else if index == 6 {
            Place::LowerLeft
        } else if index == 7 {
            Place::Lower
        } else {
            Place::LowerRight
        }
    }

    /// The mark at a place, if any.
    pub fn get_place(&self, place: Place) -> (r: Option<Player>)
        ensures
            r == self@.grid[place_index(place)],
    {
        self.grid[TicTacToe::get_grid_index(place)]
    }

    /// Marks (or clears) a place, leaving the status untouched.
    fn set_place(&mut self, place: Place, player: Option<Player>)
        ensures
            final(self)@.status == old(self)@.status,
            final(self)@.grid == old(self)@.grid.update(place_index(place), player),
    {
        let index = TicTacToe::get_grid_index(place);
        self.grid[index] = player;
    }

    /// Every open place, in grid order, while the game runs; no move once it
    /// is finished.
    pub fn possible_moves(&self) -> (r: Vec<Place>)
        ensures
            r@ == spec_possible_moves(self@),
    {
        match self.status {
            Status::Finished(_) => Vec::new(),
            Status::Running(_) => {
                let mut moves: Vec<Place> = Vec::new();
                let mut i: usize = 0;
                while i < 9
                    invariant
                        0 <= i <= 9,
                        self@.grid.len() == 9,
                        moves@ == spec_open_places(self@.grid, i as int),
                    decreases 9 - i,
                {
                    if self.grid[i].is_none() {
                        moves.push(TicTacToe::get_grid_place(i));
                    }
                    i += 1;
                }
                moves
            },
        }
    }

    /// The player holding all three given places, if any.
    fn check_triple(&self, a: Place, b: Place, c: Place) -> (r: Option<Player>)
        ensures
            r == triple_winner(self@.grid, a, b, c),
    {
        let pa = self.get_place(a);
        let pb = self.get_place(b);
        let pc = self.get_place(c);
        let same = match (pa, pb, pc) {
            (Some(x), Some(y), Some(z)) => x == y && x == z,
            (None, None, None) => true,
            _ => false,
        };
        if same {
            pa
        } else {
            None
        }
    }

    /// The result of the position if it is terminal: the winner of the first
    /// completed line, or a draw once the grid is full.
    fn check_win(&self) -> (r: Option<GameResult>)
        ensures
            r == spec_check_win(self@.grid),
    {
        let mut winner = self.check_triple(Place::UpperLeft, Place::Upper, Place::UpperRight);
        if winner.is_none() {
            winner = self.check_triple(Place::Left, Place::Center, Place::Right);
        }
        if winner.is_none() {
            winner = self.check_triple(Place::LowerLeft, Place::Lower, Place::LowerRight);
        }
        if winner.is_none() {
            winner = self.check_triple(Place::UpperLeft, Place::Left, Place::LowerLeft);
        }
        if winner.is_none() {
            winner = self.check_triple(Place::Upper, Place::Center, Place::Lower);
        }
        if winner.is_none() {
            winner = self.check_triple(Place::UpperRight, Place::Right, Place::LowerRight);
        }
        if winner.is_none() {
            winner = self.check_triple(Place::UpperLeft, Place::Center, Place::LowerRight);
        }
        if winner.is_none() {
            winner = self.check_triple(Place::UpperRight, Place::Center, Place::LowerLeft);
        }

        let mut all_filled = true;
        let mut i: usize = 0;
        while i < 9
            invariant
                0 <= i <= 9,
                self@.grid.len() == 9,
                all_filled == forall|j: int| 0 <= j < i ==> self@.grid[j] is Some,
            decreases 9 - i,
        {
            if self.grid[i].is_none() {
                all_filled = false;
            }
            i += 1;
        }

        match winner {
            Some(player) => Some(GameResult::Win(player)),
            None => if all_filled {
                Some(GameResult::Draw)
            } else {
                None
            },
        }
    }

    /// Marks `place` for `player` if the game is running, the place is open
    /// and it is `player`'s turn; a completed line or a full grid finishes
    /// the game, otherwise the turn passes. A rejected move reports why and
    /// changes nothing.
    pub fn make_move(&mut self, player: Player, place: Place) -> (r: Result<(), MoveError>)
        ensures
            match spec_make_move(old(self)@, player, place) {
                Result::Ok(next) => r == Result::<(), MoveError>::Ok(()) && final(self)@ == next,
                Result::Err(e) => r == Result::<(), MoveError>::Err(e) && final(self)@ == old(
                    self,
                )@,
            },
    {
        match self.status {
            Status::Finished(_) => Result::Err(MoveError::InvalidStatus(self.status)),
            Status::Running(status_player) => {
                if let Some(place_player) = self.get_place(place) {
                    return Result::Err(MoveError::PlaceAlreadyUsed(place, place_player));
                } else if status_player != player {
                    return Result::Err(MoveError::WrongPlayer(status_player));
                }

                self.set_place(place, Some(player));

                self.status = if let Some(result) = self.check_win() {
                    Status::Finished(result)
                } else {
                    Status::Running(player.other())
                };

                Result::Ok(())
            },
        }
    }

    /// Searches the move tree below this position, `depth` plies beyond the
    /// immediate children, and returns the best outcome for the player to
    /// move together with every move tied for it.
    pub fn minimax(&self, depth: usize) -> (r: MinimaxResult<TicTacToe>)
        ensures
            match (r, spec_minimax::<TicTacToe>(self@, depth as nat)) {
                (Result::Ok(m), Result::Ok(pair)) => m.outcome == pair.0 && m.moves@ == pair.1,
                (Result::Err(actual), Result::Err(expected)) => actual == expected,
                _ => false,
            },
            match r {
                Result::Ok(m) => definite_within(m.outcome, depth as nat),
                Result::Err(_) => true,
            },
    {
        minimax_search(self, depth)
    }
}

impl Default for TicTacToe {
    /// The opening position, as [`TicTacToe::new`] builds it.
    fn default() -> (r: TicTacToe)
        ensures
            r@ == spec_init(),
    {
        TicTacToe::new()
    }
}

/// The engine identity of a mark: `X` moves first and maximizes.
pub open spec fn engine_player(player: Player) -> MinimaxPlayer {
    match player {
        Player::X => MinimaxPlayer::One,
        Player::O => MinimaxPlayer::Two,
    }
}

/// The engine form of a finished result.
pub open spec fn engine_result(result: GameResult) -> MinimaxGameResult {
    match result {
        GameResult::Draw => MinimaxGameResult::Draw,
        GameResult::Win(player) => MinimaxGameResult::Win(engine_player(player)),
    }
}

/// The engine form of a status.
pub open spec fn engine_status(status: Status) -> MinimaxStatus {
    match status {
        Status::Running(player) => MinimaxStatus::Running(engine_player(player)),
        Status::Finished(result) => MinimaxStatus::Finished(engine_result(result)),
    }
}

impl GameState for TicTacToe {
    type Move = Place;

    type MoveError = MoveError;

    open spec fn status_of(v: TicTacToeView) -> MinimaxStatus {
        engine_status(v.status)
    }

    open spec fn moves_of(v: TicTacToeView) -> Seq<Place> {
        spec_possible_moves(v)
    }

    open spec fn move_of(v: TicTacToeView, mov: Place) -> Result<TicTacToeView, MoveError> {
        match v.status {
            Status::Finished(_) => Result::Err(MoveError::InvalidStatus(v.status)),
            Status::Running(player) => spec_make_move(v, player, mov),
        }
    }

    open spec fn score_of(v: TicTacToeView) -> isize {
        0
    }

    fn get_status(&self) -> MinimaxStatus {
        match self.status {
            Status::Running(Player::X) => MinimaxStatus::Running(MinimaxPlayer::One),
            Status::Running(Player::O) => MinimaxStatus::Running(MinimaxPlayer::Two),
            Status::Finished(GameResult::Draw) => MinimaxStatus::Finished(MinimaxGameResult::Draw),
            Status::Finished(GameResult::Win(Player::X)) => MinimaxStatus::Finished(
                MinimaxGameResult::Win(MinimaxPlayer::One),
            ),
            Status::Finished(GameResult::Win(Player::O)) => MinimaxStatus::Finished(
                MinimaxGameResult::Win(MinimaxPlayer::Two),
            ),
        }
    }

    fn possible_moves(&self) -> Vec<Place> {
        self.possible_moves()
    }

    fn make_move(&mut self, mov: &Place) -> Result<(), MoveError> {
        match self.status {
            Status::Finished(_) => Result::Err(MoveError::InvalidStatus(self.status)),
            Status::Running(player) => self.make_move(player, *mov),
        }
    }

    fn clone_state(&self) -> TicTacToe {
        *self
    }

    fn get_score(&self) -> isize {
        0
    }
}

} // verus!

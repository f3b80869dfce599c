//! 2048 as a two-player game implementing the search engine's capability
//! contract: the human slides the grid in one of four directions, merging
//! equal adjacent tiles toward the chosen side, and the robot answers by
//! placing a 2 or a 4 on an empty cell. The robot wins once the board locks.
//!
//! The game is modelled by a view holding the status and the grid as a
//! sequence of sixteen cell values; sliding is specified line by line over
//! the evolving grid, exactly as the executable code performs it.

use vstd::prelude::*;

use crate::outcome::{
    GameResult as MinimaxGameResult, Player as MinimaxPlayer, Status as MinimaxStatus,
};
use crate::search::{definite_within, minimax_search, spec_minimax, GameState, MinimaxResult};

verus! {

const GRID_WIDTH: usize = 4;

const GRID_HEIGHT: usize = 4;

const GRID_SIZE: usize = GRID_WIDTH * GRID_HEIGHT;

/// One of the sixteen cells of the grid, identified by its index, row by row
/// from the lower left.
#[derive(Clone, Copy, Debug, Hash, PartialEq, Eq, Structural)]
pub struct Place(usize);

/// The error for coordinates outside the grid.
#[derive(Clone, Copy, Debug, Hash, PartialEq, Eq, Structural)]
pub struct InvalidPlace;

/// The two roles: the human slides the grid, the robot places new tiles.
#[derive(Clone, Copy, Debug, Hash, PartialEq, Eq, Structural)]
pub enum Player {
    Human,
    Robot,
}

/// A sliding direction for the human's move.
#[derive(Clone, Copy, Debug, Hash, PartialEq, Eq, Structural)]
pub enum Direction {
    Up,
    Down,
    Left,
    Right,
}

/// A move of either role: a slide, or a tile (2 or 4) placed on a cell.
#[derive(Clone, Copy, Debug, Hash, PartialEq, Eq, Structural)]
pub enum Move {
    Human(Direction),
    Robot(Place, usize),
}

/// Whether the game is running (and who is to move) or finished; the game
/// finishes exactly when the board locks, which counts as the robot's win.
#[derive(Clone, Copy, Debug, Hash, PartialEq, Eq, Structural)]
pub enum Status {
    Running(Player),
    Finished,
}

/// A 2048 position: the status and the sixteen cell values (0 for empty).
#[derive(Clone, Copy, Debug, Hash, PartialEq, Eq)]
pub struct Game2048 {
    status: Status,
    grid: [usize; GRID_SIZE],
}

/// Why a move was rejected; a rejected move leaves the game unchanged.
#[derive(Clone, Copy, Debug, Hash, PartialEq, Eq, Structural)]
pub enum MoveError {
    /// The game is already finished.
    InvalidStatus(Status),
    /// It is the returned player's turn, not the mover's.
    WrongPlayer(Player),
    /// The cell already holds a tile.
    PlaceAlreadyFilled(Place),
    /// The robot may only place a 2 or a 4.
    ValueNotAllowed(usize),
    /// Sliding in this direction would move nothing.
    DirectionBlocked(Direction),
}

/// The abstract state of a game: the status and the grid as a sequence of
/// sixteen cell values, indexed row by row from the lower left.
pub struct Game2048View {
    pub status: Status,
    pub grid: Seq<usize>,
}

impl View for Game2048 {
    type V = Game2048View;

    closed spec fn view(&self) -> Game2048View {
        Game2048View { status: self.status, grid: self.grid@ }
    }
}

impl View for Place {
    type V = int;

    closed spec fn view(&self) -> int {
        self.0 as int
    }
}

impl Place {
    #[verifier::type_invariant]
    spec fn in_grid(self) -> bool {
        self.0 < GRID_SIZE
    }

    /// The cell at column `x` (0 is leftmost) and row `y` (0 is lowest), or
    /// an error when either coordinate is outside the grid.
    pub fn from_xy(x: usize, y: usize) -> (r: Result<Place, InvalidPlace>)
        ensures
            match r {
                Result::Ok(place) => x < 4 && y < 4 && place@ == y * 4 + x,
                Result::Err(_) => x >= 4 || y >= 4,
            },
    {
        if x >= GRID_WIDTH || y >= GRID_HEIGHT {
            Result::Err(InvalidPlace)
        } else {
            Result::Ok(Place(y * GRID_WIDTH + x))
        }
    }

    /// The column and row of the cell.
    pub fn get_xy(self) -> (r: (usize, usize))
        ensures
            r.0 == self@ % 4,
            r.1 == self@ / 4,
    {
        (self.0 % GRID_WIDTH, self.0 / GRID_WIDTH)
    }
}

/// The cell at a grid index.
pub closed spec fn place_at(index: int) -> Place {
    Place(index as usize)
}

/// The view of [`place_at`] returns the index it was given.
pub proof fn lemma_place_at_view(index: int)
    requires
        0 <= index < 16,
    ensures
        place_at(index)@ == index,
{
}

/// Cells with the same index are the same cell.
pub proof fn lemma_place_extensional(a: Place, b: Place)
    requires
        a@ == b@,
    ensures
        a == b,
{
}

impl Player {
    /// The opposing role.
    pub open spec fn spec_other(self) -> Player {
        match self {
            Player::Human => Player::Robot,
            Player::Robot => Player::Human,
        }
    }

    /// The opposing role.
    #[verifier::when_used_as_spec(spec_other)]
    pub fn other(self) -> (r: Player)
        ensures
            r == self.spec_other(),
    {
        match self {
            Player::Human => Player::Robot,
            Player::Robot => Player::Human,
        }
    }
}

impl Direction {
    /// Every direction, in a fixed enumeration order.
    pub fn values() -> (r: Vec<Direction>)
        ensures
            r@ == seq![Direction::Up, Direction::Down, Direction::Left, Direction::Right],
    {
        let mut directions: Vec<Direction> = Vec::new();
        directions.push(Direction::Up);
        directions.push(Direction::Down);
        directions.push(Direction::Left);
        directions.push(Direction::Right);
        proof {
            assert(directions@ =~= seq![
                Direction::Up,
                Direction::Down,
                Direction::Left,
                Direction::Right,
            ]);
        }
        directions
    }

    /// The direction pointing the opposite way.
    pub open spec fn spec_opposite(self) -> Direction {
        match self {
            Direction::Up => Direction::Down,
            Direction::Down => Direction::Up,
            Direction::Left => Direction::Right,
            Direction::Right => Direction::Left,
        }
    }

    /// The direction pointing the opposite way.
    #[verifier::when_used_as_spec(spec_opposite)]
    pub fn opposite(self) -> (r: Direction)
        ensures
            r == self.spec_opposite(),
    {
        match self {
            Direction::Up => Direction::Down,
            Direction::Down => Direction::Up,
            Direction::Left => Direction::Right,
            Direction::Right => Direction::Left,
        }
    }
}

/// The role a move belongs to.
pub open spec fn spec_move_player(mov: Move) -> Player {
    match mov {
        Move::Human(_) => Player::Human,
        Move::Robot(_, _) => Player::Robot,
    }
}

impl Move {
    /// The role this move belongs to.
    pub fn get_player(self) -> (r: Player)
        ensures
            r == spec_move_player(self),
    {
        match self {
            Move::Human(_) => Player::Human,
            Move::Robot(_, _) => Player::Robot,
        }
    }
}

/// The grid index of the `j`-th cell (0 is nearest the target side) of the
/// `k`-th line swept when sliding in a direction: sliding up or down sweeps
/// the four columns, sliding left or right the four rows.
pub open spec fn line_cell(direction: Direction, k: int, j: int) -> int {
    match direction {
        Direction::Up => (3 - j) * 4 + k,
        Direction::Down => j * 4 + k,
        Direction::Left => k * 4 + j,
        Direction::Right => k * 4 + (3 - j),
    }
}

/// The values of one swept line, ordered from the target side outward.
pub open spec fn line_values(grid: Seq<usize>, direction: Direction, k: int) -> Seq<usize> {
    Seq::new(4, |j: int| grid[line_cell(direction, k, j)])
}

/// The nonzero values among the first `n` of a line, in order.
pub open spec fn nonzero_prefix(s: Seq<usize>, n: int) -> Seq<usize>
    decreases n,
{
    if n <= 0 {
        Seq::empty()
    } else {
        let rest = nonzero_prefix(s, n - 1);
        if s[n - 1] != 0 {
            rest.push(s[n - 1])
        } else {
            rest
        }
    }
}

/// Greedy pairwise merging of a line of tiles: the two nearest equal
/// neighbours combine into their doubled value, each tile merging at most
/// once per slide.
pub open spec fn merge_values(s: Seq<usize>) -> Seq<usize>
    decreases s.len(),
{
    if s.len() < 2 {
        s
    } else if s[0] == s[1] {
        seq![s[0].wrapping_mul(2)] + merge_values(s.skip(2))
    } else {
        seq![s[0]] + merge_values(s.skip(1))
    }
}

/// A line padded with empty cells back to its four slots.
pub open spec fn pad_line(s: Seq<usize>) -> Seq<usize> {
    Seq::new(4, |j: int| if j < s.len() { s[j] } else { 0 })
}

/// One line after a slide: the tiles move toward the target side, equal
/// neighbours merge greedily, and the freed slots are empty.
pub open spec fn slide_line(s: Seq<usize>) -> Seq<usize> {
    pad_line(merge_values(nonzero_prefix(s, s.len() as int)))
}

/// The grid with the four cells of one line replaced by the given values.
pub open spec fn write_line(
    grid: Seq<usize>,
    direction: Direction,
    k: int,
    vals: Seq<usize>,
) -> Seq<usize> {
    grid.update(line_cell(direction, k, 0), vals[0]).update(
        line_cell(direction, k, 1),
        vals[1],
    ).update(line_cell(direction, k, 2), vals[2]).update(line_cell(direction, k, 3), vals[3])
}

/// The grid after the first `n` lines have been slid, in sweep order.
pub open spec fn slide_lines(grid: Seq<usize>, direction: Direction, n: int) -> Seq<usize>
    decreases n,
{
    if n <= 0 {
        grid
    } else {
        let prev = slide_lines(grid, direction, n - 1);
        write_line(prev, direction, n - 1, slide_line(line_values(prev, direction, n - 1)))
    }
}

/// The whole grid after a slide: all four lines slid toward the target side.
pub open spec fn spec_slide_grid(grid: Seq<usize>, direction: Direction) -> Seq<usize> {
    slide_lines(grid, direction, 4)
}

/// The index of the neighbouring cell one step in a direction, if it stays on
/// the grid.
pub open spec fn spec_adjacent(index: int, direction: Direction) -> Option<int> {
    match direction {
        Direction::Up => if index / 4 < 3 {
            Some(index + 4)
        } else {
            None
        },
        Direction::Down => if index / 4 > 0 {
            Some(index - 4)
        } else {
            None
        },
        Direction::Left => if index % 4 > 0 {
            Some(index - 1)
        } else {
            None
        },
        Direction::Right => if index % 4 < 3 {
            Some(index + 1)
        } else {
            None
        },
    }
}

/// Whether the tile at `index` could move or merge one step in a direction.
pub open spec fn mobile_at(grid: Seq<usize>, direction: Direction, index: int) -> bool {
    match spec_adjacent(index, direction) {
        Some(adjacent) => grid[adjacent] == 0 || grid[adjacent] == grid[index],
        None => false,
    }
}

/// Whether sliding in a direction would move at least one tile.
pub open spec fn spec_mobile(grid: Seq<usize>, direction: Direction) -> bool {
    exists|i: int| 0 <= i < 16 && grid[i] != 0 && #[trigger] mobile_at(grid, direction, i)
}

/// The human's legal moves: every direction in which some tile could move or
/// merge, in enumeration order.
pub open spec fn spec_human_moves(grid: Seq<usize>) -> Seq<Move> {
    let a = Seq::<Move>::empty();
    let b = if spec_mobile(grid, Direction::Up) {
        a.push(Move::Human(Direction::Up))
    } else {
        a
    };
    let c = if spec_mobile(grid, Direction::Down) {
        b.push(Move::Human(Direction::Down))
    } else {
        b
    };
    let d = if spec_mobile(grid, Direction::Left) {
        c.push(Move::Human(Direction::Left))
    } else {
        c
    };
    if spec_mobile(grid, Direction::Right) {
        d.push(Move::Human(Direction::Right))
    } else {
        d
    }
}

/// The robot's legal moves among the first `n` cells: a 2 and a 4 on every
/// empty cell, in grid order.
pub open spec fn spec_robot_moves(grid: Seq<usize>, n: int) -> Seq<Move>
    decreases n,
{
    if n <= 0 {
        Seq::empty()
    } else {
        let rest = spec_robot_moves(grid, n - 1);
        if grid[n - 1] == 0 {
            rest.push(Move::Robot(place_at(n - 1), 2)).push(Move::Robot(place_at(n - 1), 4))
        } else {
            rest
        }
    }
}

/// The legal moves of a position: none once finished, the mover's otherwise.
pub open spec fn spec_possible_moves(v: Game2048View) -> Seq<Move> {
    match v.status {
        Status::Finished => Seq::empty(),
        Status::Running(Player::Human) => spec_human_moves(v.grid),
        Status::Running(Player::Robot) => spec_robot_moves(v.grid, 16),
    }
}

/// The position after the human slides in a direction: the slid grid with the
/// robot to move, or a rejection when nothing would move.
pub open spec fn spec_human_move(v: Game2048View, direction: Direction) -> Result<
    Game2048View,
    MoveError,
> {
    let grid = spec_slide_grid(v.grid, direction);
    if grid == v.grid {
        Result::Err(MoveError::DirectionBlocked(direction))
    } else {
        Result::Ok(Game2048View { status: Status::Running(Player::Robot), grid })
    }
}

/// The position after the robot places `value` on `place`: the cell must be
/// empty and the value 2 or 4; the human moves next unless the board locks,
/// which finishes the game.
pub open spec fn spec_robot_move(v: Game2048View, place: Place, value: usize) -> Result<
    Game2048View,
    MoveError,
> {
    if v.grid[place@] > 0 {
        Result::Err(MoveError::PlaceAlreadyFilled(place))
    } else if value != 2 && value != 4 {
        Result::Err(MoveError::ValueNotAllowed(value))
    } else {
        let grid = v.grid.update(place@, value);
        let status = if spec_human_moves(grid).len() > 0 {
            Status::Running(Player::Human)
        } else {
            Status::Finished
        };
        Result::Ok(Game2048View { status, grid })
    }
}

/// The position after a move, or the error rejecting it: the game must be
/// running and the move must belong to the player whose turn it is.
pub open spec fn spec_make_move(v: Game2048View, mov: Move) -> Result<Game2048View, MoveError> {
    match v.status {
        Status::Finished => Result::Err(MoveError::InvalidStatus(v.status)),
        Status::Running(player) => if player != spec_move_player(mov) {
            Result::Err(MoveError::WrongPlayer(player))
        } else {
            match mov {
                Move::Human(direction) => spec_human_move(v, direction),
                Move::Robot(place, value) => spec_robot_move(v, place, value),
            }
        },
    }
}

/// The opening position: an empty grid, the robot to place the first tile.
pub open spec fn spec_init() -> Game2048View {
    Game2048View { status: Status::Running(Player::Robot), grid: Seq::new(16, |i: int| 0) }
}

impl Game2048 {
    /// An empty grid with the robot to move.
    pub fn new() -> (r: Game2048)
        ensures
            r@ == spec_init(),
    {
        let r = Game2048 { status: Status::Running(Player::Robot), grid: [0; GRID_SIZE] };
        proof {
            assert(r@.grid =~= spec_init().grid);
        }
        r
    }

    /// A position with the given status and the sixteen given cell values, in
    /// grid order.
    pub fn from_grid(status: Status, values: &[usize]) -> (r: Game2048)
        requires
            values@.len() == 16,
        ensures
            r@.status == status,
            r@.grid == values@,
    {
        let mut grid = [0usize; GRID_SIZE];
        let mut i: usize = 0;
        while i < 16
            invariant
                0 <= i <= 16,
                values@.len() == 16,
                grid@.len() == 16,
                forall|j: int| 0 <= j < i ==> grid@[j] == values@[j],
            decreases 16 - i,
        {
            grid[i] = values[i];
            i += 1;
        }
        let r = Game2048 { status, grid };
        proof {
            assert(r@.grid =~= values@);
        }
        r
    }

    /// The current status.
    pub fn get_status(&self) -> (r: Status)
        ensures
            r == self@.status,
    {
        self.status
    }

    /// The value of one cell (0 when empty).
    pub fn get_value(&self, place: Place) -> (r: usize)
        ensures
            r == self@.grid[place@],
    {
        proof {
            use_type_invariant(place);
        }
        self.grid[place.0]
    }

    /// All sixteen cell values, in grid order.
    pub fn get_values(&self) -> (r: &[usize])
        ensures
            r@ == self@.grid,
    {
        self.grid.as_slice()
    }

    /// Writes one cell, leaving the status untouched.
    fn set_value(&mut self, index: usize, value: usize)
        requires
            index < 16,
        ensures
            final(self)@.status == old(self)@.status,
            final(self)@.grid == old(self)@.grid.update(index as int, value),
    {
        self.grid[index] = value;
    }

    /// The grid index of the `j`-th cell of the `k`-th line swept when
    /// sliding in a direction.
    fn line_cell_index(direction: Direction, k: usize, j: usize) -> (r: usize)
        requires
            k < 4,
            j < 4,
        ensures
            r == line_cell(direction, k as int, j as int),
            r < 16,
    {
        match direction {
            Direction::Up => (3 - j) * 4 + k,
            Direction::Down => j * 4 + k,
            Direction::Left => k * 4 + j,
            Direction::Right => k * 4 + (3 - j),
        }
    }

    /// The index one step in a direction from `index`, if it stays on the
    /// grid.
    fn adjacent_index(index: usize, direction: Direction) -> (r: Option<usize>)
        requires
            index < 16,
        ensures
            match (r, spec_adjacent(index as int, direction)) {
                (Some(a), Some(b)) => a as int == b && a < 16,
                (None, None) => true,
                _ => false,
            },
    {
        match direction {
            Direction::Up => if index / 4 < 3 {
                Some(index + 4)
            } else {
                None
            },
            Direction::Down => if index / 4 > 0 {
                Some(index - 4)
            } else {
                None
            },
            Direction::Left => if index % 4 > 0 {
                Some(index - 1)
            } else {
                None
            },
            Direction::Right => if index % 4 < 3 {
                Some(index + 1)
            } else {
                None
            },
        }
    }

    /// Whether sliding in a direction would move at least one tile.
    fn check_direction_mobility(&self, direction: Direction) -> (r: bool)
        ensures
            r == spec_mobile(self@.grid, direction),
    {
        let mut i: usize = 0;
        while i < 16
            invariant
                0 <= i <= 16,
                self@.grid.len() == 16,
                forall|j: int|
                    0 <= j < i ==> !(self@.grid[j] != 0 && #[trigger] mobile_at(
                        self@.grid,
                        direction,
                        j,
                    )),
            decreases 16 - i,
        {
            if self.grid[i] != 0 {
                match Game2048::adjacent_index(i, direction) {
                    Some(adjacent) => {
                        if self.grid[adjacent] == 0 || self.grid[adjacent] == self.grid[i] {
                            proof {
                                assert(self@.grid[i as int] != 0 && mobile_at(
                                    self@.grid,
                                    direction,
                                    i as int,
                                ));
                            }
                            return true;
                        }
                    },
                    None => {},
                }
            }
            i += 1;
        }
        false
    }

    /// The legal moves of the position: every mobile direction for the human,
    /// a 2 and a 4 on every empty cell for the robot, none once finished.
    pub fn possible_moves(&self) -> (r: Vec<Move>)
        ensures
            r@ == spec_possible_moves(self@),
    {
        match self.status {
            Status::Finished => Vec::new(),
            Status::Running(Player::Human) => {
                let mut moves: Vec<Move> = Vec::new();
                if self.check_direction_mobility(Direction::Up) {
                    moves.push(Move::Human(Direction::Up));
                }
                if self.check_direction_mobility(Direction::Down) {
                    moves.push(Move::Human(Direction::Down));
                }
                if self.check_direction_mobility(Direction::Left) {
                    moves.push(Move::Human(Direction::Left));
                }
                if self.check_direction_mobility(Direction::Right) {
                    moves.push(Move::Human(Direction::Right));
                }
                moves
            },
            Status::Running(Player::Robot) => {
                let mut moves: Vec<Move> = Vec::new();
                let mut i: usize = 0;
                while i < 16
                    invariant
                        0 <= i <= 16,
                        self@.grid.len() == 16,
                        moves@ == spec_robot_moves(self@.grid, i as int),
                    decreases 16 - i,
                {
                    if self.grid[i] == 0 {
                        let place = Place(i);
                        proof {
                            assert(place == place_at(i as int));
                        }
                        moves.push(Move::Robot(place, 2));
                        moves.push(Move::Robot(place, 4));
                    }
                    i += 1;
                }
                moves
            },
        }
    }

    /// Slides the `k`-th swept line toward the target side, merging equal
    /// neighbours greedily.
    fn slide_one_line(&mut self, direction: Direction, k: usize)
        requires
            k < 4,
        ensures
            final(self)@.status == old(self)@.status,
            final(self)@.grid == write_line(
                old(self)@.grid,
                direction,
                k as int,
                slide_line(line_values(old(self)@.grid, direction, k as int)),
            ),
    {
        let ghost g0 = self@.grid;
        let c0 = Game2048::line_cell_index(direction, k, 0);
        let c1 = Game2048::line_cell_index(direction, k, 1);
        let c2 = Game2048::line_cell_index(direction, k, 2);
        let c3 = Game2048::line_cell_index(direction, k, 3);
        let v0 = self.grid[c0];
        let v1 = self.grid[c1];
        let v2 = self.grid[c2];
        let v3 = self.grid[c3];
        let ghost line = line_values(g0, direction, k as int);
        proof {
            assert(line =~= seq![v0, v1, v2, v3]);
        }

        let mut vals: Vec<usize> = Vec::new();
        if v0 != 0 {
            vals.push(v0);
        }
        if v1 != 0 {
            vals.push(v1);
        }
        if v2 != 0 {
            vals.push(v2);
        }
        if v3 != 0 {
            vals.push(v3);
        }
        proof {
            assert(vals@ == nonzero_prefix(line, 4)) by {
                reveal_with_fuel(nonzero_prefix, 5);
                assert(line[0] == v0 && line[1] == v1 && line[2] == v2 && line[3] == v3);
            }
            assert(line.len() == 4);
        }

        let mut merged: Vec<usize> = Vec::new();
        let mut i: usize = 0;
        proof {
            assert(vals@.skip(0) =~= vals@);
            assert(Seq::<usize>::empty() + merge_values(vals@) =~= merge_values(vals@));
        }
        while i < vals.len()
            invariant
                0 <= i <= vals.len(),
                merged@.len() <= i,
                merge_values(vals@) == merged@ + merge_values(vals@.skip(i as int)),
            decreases vals.len() - i,
        {
            let ghost tail = vals@.skip(i as int);
            if i + 1 < vals.len() && vals[i] == vals[i + 1] {
                merged.push(vals[i].wrapping_mul(2));
                proof {
                    assert(tail[0] == vals@[i as int] && tail[1] == vals@[i + 1]);
                    assert(tail.skip(2) =~= vals@.skip(i + 2));
                    assert(merge_values(tail) == seq![vals@[i as int].wrapping_mul(2)]
                        + merge_values(vals@.skip(i + 2)));
                    assert(merged@ + merge_values(vals@.skip(i + 2)) =~= merge_values(vals@));
                }
                i += 2;
            } else {
                merged.push(vals[i]);
                proof {
                    if tail.len() >= 2 {
                        assert(tail[0] == vals@[i as int] && tail[1] == vals@[i + 1]);
                    } else {
                        assert(tail =~= seq![vals@[i as int]]);
                    }
                    assert(tail.skip(1) =~= vals@.skip(i + 1));
                    assert(merge_values(tail) == seq![vals@[i as int]] + merge_values(
                        vals@.skip(i + 1),
                    ));
                    assert(merged@ + merge_values(vals@.skip(i + 1)) =~= merge_values(vals@));
                }
                i += 1;
            }
        }
        proof {
            assert(vals@.skip(vals@.len() as int) =~= Seq::<usize>::empty());
            assert(merge_values(Seq::<usize>::empty()) == Seq::<usize>::empty());
            assert(merged@ =~= merge_values(vals@));
        }

        let w0 = if merged.len() > 0 {
            merged[0]
        } else {
            0
        };
        let w1 = if merged.len() > 1 {
            merged[1]
        } else {
            0
        };
        let w2 = if merged.len() > 2 {
            merged[2]
        } else {
            0
        };
        let w3 = if merged.len() > 3 {
            merged[3]
        } else {
            0
        };
        self.set_value(c0, w0);
        self.set_value(c1, w1);
        self.set_value(c2, w2);
        self.set_value(c3, w3);
        proof {
            let slid = slide_line(line);
            assert(slid[0] == w0 && slid[1] == w1 && slid[2] == w2 && slid[3] == w3);
            assert(self@.grid == write_line(g0, direction, k as int, slid));
        }
    }

    /// Slides the whole grid in a direction; rejects the slide when no tile
    /// would move, otherwise the robot moves next.
    fn make_human_move(&mut self, direction: Direction) -> (r: Result<(), MoveError>)
        ensures
            match spec_human_move(old(self)@, direction) {
                Result::Ok(next) => r == Result::<(), MoveError>::Ok(()) && final(self)@ == next,
                Result::Err(e) => r == Result::<(), MoveError>::Err(e) && final(self)@ == old(
                    self,
                )@,
            },
    {
        let ghost g0 = self@.grid;
        let before = self.grid;
        let mut k: usize = 0;
        while k < 4
            invariant
                0 <= k <= 4,
                self@.status == old(self)@.status,
                self@.grid == slide_lines(g0, direction, k as int),
                g0 == old(self)@.grid,
            decreases 4 - k,
        {
            self.slide_one_line(direction, k);
            k += 1;
        }

        let mut changed = false;
        let mut i: usize = 0;
        while i < 16
            invariant
                0 <= i <= 16,
                self@.status == old(self)@.status,
                self@.grid == slide_lines(g0, direction, 4),
                g0 == old(self)@.grid,
                g0.len() == 16,
                before@ == g0,
                changed == exists|j: int| 0 <= j < i && self@.grid[j] != #[trigger] g0[j],
            decreases 16 - i,
        {
            if self.grid[i] != before[i] {
                changed = true;
            }
            i += 1;
        }

        if changed {
            self.status = Status::Running(Player::Robot);
            proof {
                let j = choose|j: int| 0 <= j < 16 && self@.grid[j] != g0[j];
                assert(spec_slide_grid(g0, direction) != g0);
            }
            Result::Ok(())
        } else {
            proof {
                assert(self@.grid =~= g0);
            }
            Result::Err(MoveError::DirectionBlocked(direction))
        }
    }

    /// Places `value` on `place` for the robot; the cell must be empty and
    /// the value 2 or 4. The human moves next unless the board locks, which
    /// finishes the game.
    fn make_robot_move(&mut self, place: Place, value: usize) -> (r: Result<(), MoveError>)
        ensures
            match spec_robot_move(old(self)@, place, value) {
                Result::Ok(next) => r == Result::<(), MoveError>::Ok(()) && final(self)@ == next,
                Result::Err(e) => r == Result::<(), MoveError>::Err(e) && final(self)@ == old(
                    self,
                )@,
            },
    {
        proof {
            use_type_invariant(place);
        }
        if self.grid[place.0] > 0 {
            return Result::Err(MoveError::PlaceAlreadyFilled(place));
        }

        if value != 2 && value != 4 {
            return Result::Err(MoveError::ValueNotAllowed(value));
        }

        self.set_value(place.0, value);
        self.status = Status::Running(Player::Human);

        let moves = self.possible_moves();
        if moves.len() == 0 {
            self.status = Status::Finished;
            proof {
                assert(spec_human_moves(self@.grid).len() == 0);
            }
        }

        Result::Ok(())
    }

    /// Applies a move of either role if the game is running and it is that
    /// role's turn. A rejected move reports why and changes nothing.
    pub fn make_move(&mut self, mov: Move) -> (r: Result<(), MoveError>)
        ensures
            match spec_make_move(old(self)@, mov) {
                Result::Ok(next) => r == Result::<(), MoveError>::Ok(()) && final(self)@ == next,
                Result::Err(e) => r == Result::<(), MoveError>::Err(e) && final(self)@ == old(
                    self,
                )@,
            },
    {
        match self.status {
            Status::Finished => Result::Err(MoveError::InvalidStatus(self.status)),
            Status::Running(player) => {
                if player != mov.get_player() {
                    return Result::Err(MoveError::WrongPlayer(player));
                }

                match mov {
                    Move::Human(direction) => self.make_human_move(direction),
                    Move::Robot(place, value) => self.make_robot_move(place, value),
                }
            },
        }
    }

    /// Searches the move tree below this position, `depth` plies beyond the
    /// immediate children, and returns the best outcome for the player to
    /// move together with every move tied for it.
    pub fn minimax(&self, depth: usize) -> (r: MinimaxResult<Game2048>)
        ensures
            match (r, spec_minimax::<Game2048>(self@, depth as nat)) {
                (Result::Ok(m), Result::Ok(pair)) => m.outcome == pair.0 && m.moves@ == pair.1,
                (Result::Err(actual), Result::Err(expected)) => actual == expected,
                _ => false,
            },
            match r {
                Result::Ok(m) => definite_within(m.outcome, depth as nat),
                Result::Err(_) => true,
            },
    {
        minimax_search(self, depth)
    }
}

impl Default for Game2048 {
    /// The opening position, as [`Game2048::new`] builds it.
    fn default() -> (r: Game2048)
        ensures
            r@ == spec_init(),
    {
        Game2048::new()
    }
}

/// The engine identity of a role: the human moves the maximizing side.
pub open spec fn engine_player(player: Player) -> MinimaxPlayer {
    match player {
        Player::Human => MinimaxPlayer::One,
        Player::Robot => MinimaxPlayer::Two,
    }
}

/// The engine form of a status: a locked board is the robot's win.
pub open spec fn engine_status(status: Status) -> MinimaxStatus {
    match status {
        Status::Running(player) => MinimaxStatus::Running(engine_player(player)),
        Status::Finished => MinimaxStatus::Finished(
            MinimaxGameResult::Win(MinimaxPlayer::Two),
        ),
    }
}

impl GameState for Game2048 {
    type Move = Move;

    type MoveError = MoveError;

    open spec fn status_of(v: Game2048View) -> MinimaxStatus {
        engine_status(v.status)
    }

    open spec fn moves_of(v: Game2048View) -> Seq<Move> {
        spec_possible_moves(v)
    }

    open spec fn move_of(v: Game2048View, mov: Move) -> Result<Game2048View, MoveError> {
        spec_make_move(v, mov)
    }

    open spec fn score_of(v: Game2048View) -> isize {
        0
    }

    fn get_status(&self) -> MinimaxStatus {
        match self.status {
            Status::Running(Player::Human) => MinimaxStatus::Running(MinimaxPlayer::One),
            Status::Running(Player::Robot) => MinimaxStatus::Running(MinimaxPlayer::Two),
            Status::Finished => MinimaxStatus::Finished(MinimaxGameResult::Win(MinimaxPlayer::Two)),
        }
    }

    fn possible_moves(&self) -> Vec<Move> {
        self.possible_moves()
    }

    fn make_move(&mut self, mov: &Move) -> Result<(), MoveError> {
        self.make_move(*mov)
    }

    fn clone_state(&self) -> Game2048 {
        *self
    }

    fn get_score(&self) -> isize {
        0
    }
}

} // verus!

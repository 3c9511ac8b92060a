//! The game itself: a board, a snake, the fruits and the score.

use crate::board::{Board, BoardError};
use crate::body::SnakeBody;
use crate::fruit::FruitSet;
use crate::interval::{duration_of_millis, millis_to_duration, tick_interval_millis, tick_interval_ms};
use crate::position::{Direction, Position};
use crate::rng::random_below;
use crate::state::{
    lemma_initial_state, lemma_stepped_wf, GameState, FRUIT_CAP, MAX_SPAWN_ATTEMPTS, MIN_BOARD_WIDTH, SPAWN_ROLL_RANGE, SPAWN_THRESHOLD,
};
use std::time::Duration;
use vstd::prelude::*;

verus! {

/// A game of snake. Turns are asked for with [`Game::turn`], time passes with
/// [`Game::tick`], and [`Game::is_game_over`] tells when to stop.
#[derive(Debug)]
pub struct Game {
    board: Board,
    body: SnakeBody,
    direction: Direction,
    pending: Option<Direction>,
    fruits: FruitSet,
    score: u32,
}

impl View for Game {
    type V = GameState;

    closed spec fn view(&self) -> GameState {
        GameState {
            board: self.board,
            body: self.body@,
            direction: self.direction,
            pending: self.pending,
            fruits: self.fruits@,
            score: self.score as nat,
        }
    }
}

/// Whether a number drawn below [`SPAWN_ROLL_RANGE`] calls for a fruit.
pub fn roll_spawns(roll: u32) -> (spawns: bool)
    ensures
        spawns == (roll <= SPAWN_THRESHOLD),
{
    roll <= SPAWN_THRESHOLD
}

impl Game {
    /// What [`Game::new`] establishes and every method keeps.
    pub closed spec fn wf(&self) -> bool {
        &&& self@.wf()
        &&& self.fruits.wf()
        &&& self.fruits.cap() == FRUIT_CAP
    }

    /// The model of a well-formed game is well formed.
    pub proof fn lemma_wf_view(&self)
        requires
            self.wf(),
        ensures
            self@.wf(),
    {
    }

    /// A new game on a board of `width` by `height` cells. The snake starts
    /// at the middle of the board whatever the size of the board: on a board
    /// that is too narrow its head is off the board and the game is over from
    /// the start. [`Game::try_new`] refuses such a board.
    pub fn new(width: u32, height: u32) -> (game: Game)
        requires
            0 < width <= i32::MAX,
            0 < height <= i32::MAX,
        ensures
            game.wf(),
            game@ == GameState::initial(width, height),
    {
        let x: i32 = (width / 2) as i32;
        let y: i32 = (height / 2) as i32;
        let cells = vec![
            Position { x, y },
            Position { x: x + 1, y },
            Position { x: x + 2, y },
            Position { x: x + 3, y },
            Position { x: x + 4, y },
        ];
        let game = Game {
            board: Board { width, height },
            body: SnakeBody::from_cells(&cells),
            direction: Direction::RIGHT,
            pending: None,
            fruits: FruitSet::new(FRUIT_CAP),
            score: 0,
        };
        assert(game@.body =~= GameState::initial(width, height).body);
        game
    }

    /// A new game on a board of `width` by `height` cells, or the reason why
    /// none can be played on such a board.
    pub fn try_new(width: u32, height: u32) -> (res: Result<Game, BoardError>)
        ensures
            match res {
                Ok(game) => {
                    &&& GameState::board_error(width, height) is None
                    &&& game.wf()
                    &&& game@ == GameState::initial(width, height)
                    &&& !game@.game_over()
                },
                Err(e) => GameState::board_error(width, height) == Some(e),
            },
    {
        if width < MIN_BOARD_WIDTH || height < 1 {
            return Err(BoardError::TooSmall);
        }
        if width > i32::MAX as u32 || height > i32::MAX as u32 {
            return Err(BoardError::TooLarge);
        }
        proof {
            lemma_initial_state(width, height);
        }
        Ok(Game::new(width, height))
    }

    /// Asks for a turn to `direction` at the next tick. A quarter turn from
    /// the heading in which the snake moved last takes the place of any turn
    /// asked for before; any other request is dropped.
    pub fn turn(&mut self, direction: Direction)
        requires
            old(self).wf(),
        ensures
            final(self).wf(),
            final(self)@ == old(self)@.turned(direction),
    {
        if self.direction.can_turn_to(direction) {
            self.pending = Some(direction);
        }
    }

    /// The cell of the head; `None` only for a snake without segments.
    pub fn snake_head(&self) -> (head: Option<Position>)
        ensures
            head == if self@.body.len() > 0 {
                Some(self@.head())
            } else {
                None
            },
    {
        match self.body.head() {
            Ok(head) => Some(head),
            Err(_) => None,
        }
    }

    /// Whether the game is over: the head is off the board or shares its cell
    /// with another segment.
    pub fn is_game_over(&self) -> (over: bool)
        requires
            self.wf(),
        ensures
            over == self@.game_over(),
    {
        match self.body.head() {
            Ok(head) => !self.board.holds(head) || self.body.contains(head, true),
            Err(_) => true,
        }
    }

    /// The number of fruits eaten.
    pub fn player_score(&self) -> (score: u32)
        ensures
            score == self@.score,
    {
        self.score
    }

    /// The time to let pass between two ticks, which shrinks as the snake
    /// grows.
    pub fn get_snake_hz(&self) -> (interval: Duration)
        ensures
            interval == duration_of_millis(tick_interval_millis(self@.body.len()) as u64),
    {
        millis_to_duration(tick_interval_ms(self.body.len()))
    }

    /// The playing field.
    pub fn board(&self) -> (board: Board)
        ensures
            board == self@.board,
    {
        self.board
    }

    /// A snapshot of the cells of the snake, tail first and head last.
    pub fn snake_position(&self) -> (cells: Vec<Position>)
        ensures
            cells@ == self@.body,
    {
        self.body.cells()
    }

    /// The heading in which the snake moved last.
    pub fn snake_direction(&self) -> (direction: Direction)
        ensures
            direction == self@.direction,
    {
        self.direction
    }

    /// The turn that was asked for since the latest tick, if any.
    pub fn turn_command(&self) -> (pending: Option<Direction>)
        ensures
            pending == self@.pending,
    {
        self.pending
    }

    /// A snapshot of the cells of the fruits, oldest first.
    pub fn fruit_position(&self) -> (cells: Vec<Position>)
        ensures
            cells@ == self@.fruits,
    {
        self.fruits.cells()
    }

    /// Moves the snake by one cell and lets it eat, as [`Game::tick`] does
    /// before it lays out a fruit. Returns whether the snake moved, which it
    /// does unless the game is over.
    pub fn step(&mut self) -> (moved: bool)
        requires
            old(self).wf(),
            old(self)@.score < u32::MAX,
        ensures
            final(self).wf(),
            moved == !old(self)@.game_over(),
            final(self)@ == old(self)@.stepped(),
    {
        if self.is_game_over() {
            return false;
        }
        proof {
            lemma_stepped_wf(self@);
        }
        let heading = match self.pending {
            Some(requested) => requested,
            None => self.direction,
        };
        self.direction = heading;
        self.pending = None;
        match self.body.advance(heading) {
            Ok(()) => {},
            Err(_) => {
                return false;
            },
        }
        let entered = match self.body.head() {
            Ok(entered) => entered,
            Err(_) => {
                return false;
            },
        };
        if self.fruits.consume(entered) {
            self.body.grow();
            self.score += 1;
            assert(self@.body =~= old(self)@.body.push(entered));
        }
        true
    }

    /// Lays a fruit out on `candidate` if that cell is on the board, free of
    /// the snake, and the fruits are below their limit. Returns whether the
    /// fruit was laid out.
    pub fn place_fruit(&mut self, candidate: Position) -> (placed: bool)
        requires
            old(self).wf(),
        ensures
            final(self).wf(),
            placed == old(self)@.can_place(candidate),
            placed ==> final(self)@ == old(self)@.placed(candidate),
            !placed ==> final(self)@ == old(self)@,
    {
        if !self.board.holds(candidate) || self.body.contains(candidate, false) {
            return false;
        }
        self.fruits.insert(candidate)
    }

    /// Tries cells of the board drawn at random until a fruit is laid out on
    /// one of them, [`MAX_SPAWN_ATTEMPTS`] cells at most. Returns whether a
    /// fruit was laid out. Which cells are drawn is left to chance, so the
    /// search may fail while a free cell exists; it cannot fail where a fruit
    /// can be laid out on every cell of the board, and it gives up only after
    /// a cell of the board was refused.
    pub fn spawn_fruit_definitely(&mut self) -> (placed: bool)
        requires
            old(self).wf(),
        ensures
            final(self).wf(),
            old(self)@.spawn_outcome(final(self)@),
            placed == (final(self)@ != old(self)@),
            old(self)@.board_is_clear() ==> placed,
            !placed ==> exists|cell: Position|
                old(self)@.board.contains(cell) && !#[trigger] old(self)@.can_place(cell),
    {
        let mut attempts: u32 = 0;
        while attempts < MAX_SPAWN_ATTEMPTS
            invariant
                self.wf(),
                self@ == old(self)@,
                attempts > 0 ==> exists|cell: Position|
                    old(self)@.board.contains(cell) && !#[trigger] old(self)@.can_place(cell),
            decreases MAX_SPAWN_ATTEMPTS - attempts,
        {
            let x = random_below(self.board.width);
            let y = random_below(self.board.height);
            let candidate = Position { x: x as i32, y: y as i32 };
            if self.place_fruit(candidate) {
                assert(self@.fruits.len() != old(self)@.fruits.len());
                return true;
            }
            assert(old(self)@.board.contains(candidate) && !old(self)@.can_place(candidate));
            attempts += 1;
        }
        false
    }

    /// Unless the fruits are at their limit, draws a number below
    /// [`SPAWN_ROLL_RANGE`] and, where [`roll_spawns`] says so, tries to lay
    /// out a fruit.
    pub fn spawn_fruit_maybe(&mut self)
        requires
            old(self).wf(),
        ensures
            final(self).wf(),
            old(self)@.spawn_outcome(final(self)@),
    {
        if !self.fruits.is_full() {
            let roll = random_below(SPAWN_ROLL_RANGE);
            if roll_spawns(roll) {
                self.spawn_fruit_definitely();
            }
        }
    }

    /// One tick of the game. A game that is over stays as it is. Otherwise
    /// the turn asked for last becomes the heading, the snake moves by one
    /// cell and eats the fruit that it finds there, and then, by chance, one
    /// fruit is laid out on a cell of the board that the snake does not
    /// occupy.
    pub fn tick(&mut self)
        requires
            old(self).wf(),
            old(self)@.score < u32::MAX,
        ensures
            final(self).wf(),
            old(self)@.tick_outcome(final(self)@),
    {
        if self.step() {
            self.spawn_fruit_maybe();
        }
    }
}

} // verus!

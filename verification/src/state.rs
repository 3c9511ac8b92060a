//! The mathematical model of a game and the rules of a tick, stated on it.

use crate::board::{Board, BoardError};
use crate::body::occupies;
use crate::fruit::{first_match, lemma_first_match_exists, without_first};
use crate::position::{Direction, Position};
use vstd::prelude::*;

verus! {

/// The number of segments of the snake at the start of a game.
pub const INITIAL_LENGTH: usize = 5;

/// The least width of a board that holds the snake in its starting position.
pub const MIN_BOARD_WIDTH: u32 = 9;

/// The number of fruits that may lie on the board at a time.
pub const FRUIT_CAP: usize = 10;

/// A tick draws a number below this one to decide whether to lay out a fruit.
pub const SPAWN_ROLL_RANGE: u32 = 100;

/// A fruit is laid out when the number drawn is at most this one.
pub const SPAWN_THRESHOLD: u32 = 15;

/// How many cells a tick tries at most before it gives up laying out a fruit.
pub const MAX_SPAWN_ATTEMPTS: u32 = 128;

/// What a game is at one moment.
pub struct GameState {
    /// The playing field.
    pub board: Board,
    /// The cells of the snake, tail first and head last.
    pub body: Seq<Position>,
    /// The heading in which the snake moved last.
    pub direction: Direction,
    /// The turn that was asked for since the latest tick, if any.
    pub pending: Option<Direction>,
    /// The cells of the fruits, oldest first.
    pub fruits: Seq<Position>,
    /// The number of fruits eaten.
    pub score: nat,
}

impl GameState {
    /// The state in which a game on a board of `width` by `height` cells
    /// starts: five segments in a row that begins at the middle of the board
    /// and runs to the right, heading right, with no fruit and no score.
    pub open spec fn initial(width: u32, height: u32) -> GameState {
        let x = (width / 2) as i32;
        let y = (height / 2) as i32;
        GameState {
            board: Board { width, height },
            body: seq![
                Position { x, y },
                Position { x: (x + 1) as i32, y },
                Position { x: (x + 2) as i32, y },
                Position { x: (x + 3) as i32, y },
                Position { x: (x + 4) as i32, y },
            ],
            direction: Direction::RIGHT,
            pending: None,
            fruits: Seq::empty(),
            score: 0,
        }
    }

    /// What is wrong with a board of `width` by `height` cells as the board
    /// of a game, if anything: it does not hold the snake in its starting
    /// position, or it has a side above `i32::MAX`.
    pub open spec fn board_error(width: u32, height: u32) -> Option<BoardError> {
        if width < MIN_BOARD_WIDTH || height < 1 {
            Some(BoardError::TooSmall)
        } else if width > i32::MAX || height > i32::MAX {
            Some(BoardError::TooLarge)
        } else {
            None
        }
    }

    /// What holds of every state that a game reaches: the sides of the board
    /// are positive and fit the coordinates of a cell, the snake has a head,
    /// the fruits are within their limit, and the snake has grown by one
    /// segment for each fruit eaten.
    pub open spec fn wf(self) -> bool {
        &&& 0 < self.board.width <= i32::MAX
        &&& 0 < self.board.height <= i32::MAX
        &&& self.body.len() >= 1
        &&& self.fruits.len() <= FRUIT_CAP
        &&& self.body.len() == INITIAL_LENGTH + self.score
    }

    /// The cell of the head.
    pub open spec fn head(self) -> Position {
        self.body.last()
    }

    /// The game is over when the head is off the board or shares its cell
    /// with another segment.
    pub open spec fn game_over(self) -> bool {
        !self.board.contains(self.head()) || occupies(self.body, self.head(), true)
    }

    /// The state after a turn to `requested` was asked for: a quarter turn
    /// from the heading in which the snake moved last is put on record, in
    /// place of an earlier one; any other request changes nothing.
    pub open spec fn turned(self, requested: Direction) -> GameState {
        if self.direction.allows_turn(requested) {
            GameState { pending: Some(requested), ..self }
        } else {
            self
        }
    }

    /// The heading of the next move: the turn on record, or else the heading
    /// of the move before.
    pub open spec fn heading(self) -> Direction {
        match self.pending {
            Some(requested) => requested,
            None => self.direction,
        }
    }

    /// The cell that the head enters on the next move.
    pub open spec fn next_head(self) -> Position {
        self.head().neighbour(self.heading())
    }

    /// Whether the next move takes the head onto a fruit.
    pub open spec fn eats(self) -> bool {
        self.fruits.contains(self.next_head())
    }

    /// The state after the snake has moved and eaten. A game that is over
    /// stays as it is. Otherwise the turn on record becomes the heading and
    /// the head enters the next cell. Where a fruit lies there, the oldest
    /// such fruit goes, the score rises by one and the tail stays where it
    /// is; where none lies there, the tail leaves its cell.
    pub open spec fn stepped(self) -> GameState {
        if self.game_over() {
            self
        } else if self.eats() {
            GameState {
                body: self.body.push(self.next_head()),
                direction: self.heading(),
                pending: None,
                fruits: without_first(self.fruits, self.next_head()),
                score: self.score + 1,
                ..self
            }
        } else {
            GameState {
                body: self.body.drop_first().push(self.next_head()),
                direction: self.heading(),
                pending: None,
                ..self
            }
        }
    }

    /// A fruit can be laid out on `cell` when the cell is on the board, no
    /// segment of the snake occupies it and the fruits are below their limit.
    pub open spec fn can_place(self, cell: Position) -> bool {
        &&& self.board.contains(cell)
        &&& !occupies(self.body, cell, false)
        &&& self.fruits.len() < FRUIT_CAP
    }

    /// Whether a fruit can be laid out on every cell of the board: the snake
    /// occupies none of them and the fruits are below their limit. On such a
    /// state no choice of a cell can fail.
    pub open spec fn board_is_clear(self) -> bool {
        forall|cell: Position| self.board.contains(cell) ==> #[trigger] self.can_place(cell)
    }

    /// The state with one more fruit, on `cell`.
    pub open spec fn placed(self, cell: Position) -> GameState {
        GameState { fruits: self.fruits.push(cell), ..self }
    }

    /// Whether `after` is this state, or this state with one more fruit on a
    /// cell where one can be laid out.
    pub open spec fn spawn_outcome(self, after: GameState) -> bool {
        after == self || exists|cell: Position|
            self.can_place(cell) && after == #[trigger] self.placed(cell)
    }

    /// Whether a tick may lead from this state to `after`: a game that is
    /// over stays as it is; otherwise the snake moves and eats, and then at
    /// most one fruit is laid out.
    pub open spec fn tick_outcome(self, after: GameState) -> bool {
        if self.game_over() {
            after == self
        } else {
            self.stepped().spawn_outcome(after)
        }
    }
}

/// A game starts with five segments in a row, the head four cells to the
/// right of the middle of the board, heading right and without score. It is
/// over from the start exactly where the board is too narrow for that row,
/// which is below [`MIN_BOARD_WIDTH`] cells.
pub proof fn lemma_initial_state(width: u32, height: u32)
    requires
        0 < width <= i32::MAX,
        0 < height <= i32::MAX,
    ensures
        GameState::initial(width, height).wf(),
        GameState::initial(width, height).body.len() == INITIAL_LENGTH,
        forall|i: int|
            0 <= i < INITIAL_LENGTH ==> #[trigger] GameState::initial(width, height).body[i]
                == (Position { x: (width / 2 + i) as i32, y: (height / 2) as i32 }),
        GameState::initial(width, height).head() == (Position {
            x: (width / 2 + 4) as i32,
            y: (height / 2) as i32,
        }),
        GameState::initial(width, height).direction == Direction::RIGHT,
        GameState::initial(width, height).pending is None,
        GameState::initial(width, height).fruits.len() == 0,
        GameState::initial(width, height).score == 0,
        GameState::initial(width, height).game_over() <==> width < MIN_BOARD_WIDTH,
        !GameState::initial(width, height).game_over() <==> GameState::board_error(width, height)
            is None,
{
    let s = GameState::initial(width, height);
    assert(s.body[0].x == width / 2);
    assert(s.body[1].x == width / 2 + 1);
    assert(s.body[2].x == width / 2 + 2);
    assert(s.body[3].x == width / 2 + 3);
    assert(s.body[4].x == width / 2 + 4);
}

/// A request for a turn that is no quarter turn from the heading of the
/// latest move changes nothing. A quarter turn is put on record and changes
/// nothing else. Of two requests in a row the later quarter turn is the one
/// on record.
pub proof fn lemma_turn_requests(s: GameState, first: Direction, second: Direction)
    ensures
        s.turned(s.direction) == s,
        s.turned(s.direction.opposite()) == s,
        !s.direction.allows_turn(first) ==> s.turned(first) == s,
        s.direction.allows_turn(first) ==> s.turned(first) == (GameState {
            pending: Some(first),
            ..s
        }),
        s.direction.allows_turn(second) ==> s.turned(first).turned(second) == s.turned(second),
        !s.direction.allows_turn(second) ==> s.turned(first).turned(second) == s.turned(first),
{
}

/// A tick after a request for a turn: a quarter turn becomes the heading, and
/// after any other request the snake keeps the heading that it would have
/// had without the request. The tick leaves no turn on record.
pub proof fn lemma_turn_then_tick(s: GameState, requested: Direction, after: GameState)
    requires
        s.wf(),
        !s.game_over(),
        s.turned(requested).tick_outcome(after),
    ensures
        s.direction.allows_turn(requested) ==> after.direction == requested,
        !s.direction.allows_turn(requested) ==> after.direction == s.heading(),
        after.pending is None,
        after.head() == s.head().neighbour(after.direction),
{
    lemma_spawn_keeps(s.turned(requested).stepped(), after);
}

/// Laying out a fruit changes the fruits and nothing else.
pub proof fn lemma_spawn_keeps(s: GameState, after: GameState)
    requires
        s.spawn_outcome(after),
    ensures
        after.board == s.board,
        after.body == s.body,
        after.direction == s.direction,
        after.pending == s.pending,
        after.score == s.score,
        after.fruits == s.fruits || (s.fruits.len() < FRUIT_CAP && exists|cell: Position|
            #![trigger s.placed(cell)]
            s.can_place(cell) && after.fruits == s.fruits.push(cell)),
        after.game_over() == s.game_over(),
{
}

/// A tick keeps a state well formed, never lowers the score, and changes
/// nothing once the game is over.
pub proof fn lemma_tick_preserves(s: GameState, after: GameState)
    requires
        s.wf(),
        s.tick_outcome(after),
    ensures
        after.wf(),
        after.board == s.board,
        after.score >= s.score,
        s.game_over() ==> after == s,
{
    if !s.game_over() {
        lemma_stepped_wf(s);
        lemma_spawn_keeps(s.stepped(), after);
    }
}

/// Moving and eating keeps a state well formed.
pub proof fn lemma_stepped_wf(s: GameState)
    requires
        s.wf(),
    ensures
        s.stepped().wf(),
{
    if !s.game_over() && s.eats() {
        lemma_first_match_exists(s.fruits, s.next_head());
    }
}

/// A tick with no fruit ahead moves the snake by one cell: the head enters
/// its neighbour in the heading, the length stays, and every other segment
/// takes the cell of the segment before it. With no turn on record the
/// heading stays; heading right, the head's `x` rises by one and its `y`
/// stays.
pub proof fn lemma_straight_move(s: GameState, after: GameState)
    requires
        s.wf(),
        !s.game_over(),
        !s.eats(),
        s.tick_outcome(after),
    ensures
        after.direction == s.heading(),
        s.pending is None ==> after.direction == s.direction,
        after.head() == s.head().neighbour(s.heading()),
        after.body.len() == s.body.len(),
        forall|i: int| 0 <= i < s.body.len() - 1 ==> #[trigger] after.body[i] == s.body[i + 1],
        after.score == s.score,
        s.heading() == Direction::RIGHT ==> after.head().x == s.head().x + 1 && after.head().y
            == s.head().y,
{
    lemma_spawn_keeps(s.stepped(), after);
}

/// A tick that takes the head onto a fruit makes the snake one segment
/// longer, with the tail where it was, raises the score by one and takes the
/// oldest fruit on that cell away. No fruit is laid out on that cell by the
/// same tick, so a cell that held one fruit holds none afterwards.
pub proof fn lemma_fruit_consumption(s: GameState, after: GameState)
    requires
        s.wf(),
        !s.game_over(),
        s.eats(),
        s.tick_outcome(after),
    ensures
        after.body.len() == s.body.len() + 1,
        after.body == s.body.push(s.next_head()),
        after.score == s.score + 1,
        s.stepped().fruits == s.fruits.remove(first_match(s.fruits, s.next_head())),
        s.stepped().fruits.len() == s.fruits.len() - 1,
        after.fruits == s.stepped().fruits || exists|cell: Position|
            #![trigger s.stepped().placed(cell)]
            cell != s.next_head() && after.fruits == s.stepped().fruits.push(cell),
        s.fruits.no_duplicates() ==> !after.fruits.contains(s.next_head()),
{
    let cell = s.next_head();
    let m = s.stepped();
    let i = first_match(s.fruits, cell);
    lemma_first_match_exists(s.fruits, cell);
    lemma_spawn_keeps(m, after);
    assert(m.body[m.body.len() - 1] == cell);
    if after.fruits != m.fruits {
        let placed = choose|placed: Position|
            #![trigger m.placed(placed)]
            m.can_place(placed) && after.fruits == m.fruits.push(placed);
        assert(placed != cell);
    }
    if s.fruits.no_duplicates() {
        assert forall|j: int| 0 <= j < m.fruits.len() implies m.fruits[j] != cell by {
            if j < i {
                assert(m.fruits[j] == s.fruits[j]);
            } else {
                assert(m.fruits[j] == s.fruits[j + 1]);
            }
        }
        assert(!m.fruits.contains(cell));
        if after.fruits != m.fruits {
            let placed = choose|placed: Position|
                #![trigger m.placed(placed)]
                m.can_place(placed) && after.fruits == m.fruits.push(placed);
            assert forall|j: int| 0 <= j < after.fruits.len() implies after.fruits[j] != cell by {
                if j < m.fruits.len() {
                    assert(after.fruits[j] == m.fruits[j]);
                }
            }
        }
    }
}

/// When a tick ends the game: the head has left the board, or it has entered
/// a cell that the snake still occupies. The cell of the tail counts only
/// where the tail stays, which is when the head enters a fruit.
pub proof fn lemma_game_over_after_tick(s: GameState, after: GameState)
    requires
        s.wf(),
        !s.game_over(),
        s.tick_outcome(after),
    ensures
        after.game_over() <==> !s.board.contains(s.next_head()) || if s.eats() {
            occupies(s.body, s.next_head(), false)
        } else {
            occupies(s.body.drop_first(), s.next_head(), false)
        },
{
    let cell = s.next_head();
    let m = s.stepped();
    lemma_spawn_keeps(m, after);
    let kept = if s.eats() {
        s.body
    } else {
        s.body.drop_first()
    };
    assert(m.body == kept.push(cell));
    assert(m.head() == cell);
    if occupies(m.body, cell, true) {
        let i = choose|i: int|
            0 <= i < m.body.len() && #[trigger] m.body[i] == cell && !(true && i == m.body.len()
                - 1);
        assert(kept[i] == cell);
    }
    if occupies(kept, cell, false) {
        let i = choose|i: int|
            0 <= i < kept.len() && #[trigger] kept[i] == cell && !(false && i == kept.len() - 1);
        assert(m.body[i] == cell);
    }
}

} // verus!

//! Board cells and the four headings.

use vstd::prelude::*;

verus! {

/// A cell of the grid. Whether it lies on a board is for the board to say.
#[derive(Clone, Copy, Debug, PartialEq, Eq, Structural)]
pub struct Position {
    pub x: i32,
    pub y: i32,
}

/// One of the four headings. `UP` is towards smaller `y`.
#[allow(non_camel_case_types)]
#[derive(Clone, Copy, Debug, PartialEq, Eq, Structural)]
pub enum Direction {
    UP,
    DOWN,
    LEFT,
    RIGHT,
}

impl Direction {
    /// The horizontal component of the unit vector of this heading.
    pub open spec fn dx(self) -> int {
        match self {
            Direction::UP => 0,
            Direction::DOWN => 0,
            Direction::LEFT => -1,
            Direction::RIGHT => 1,
        }
    }

    /// The vertical component of the unit vector of this heading.
    pub open spec fn dy(self) -> int {
        match self {
            Direction::UP => -1,
            Direction::DOWN => 1,
            Direction::LEFT => 0,
            Direction::RIGHT => 0,
        }
    }

    /// The heading that points the other way.
    pub open spec fn opposite(self) -> Direction {
        match self {
            Direction::UP => Direction::DOWN,
            Direction::DOWN => Direction::UP,
            Direction::LEFT => Direction::RIGHT,
            Direction::RIGHT => Direction::LEFT,
        }
    }

    /// A turn from this heading to `requested` is legal when it is a quarter
    /// turn: neither the same heading nor the opposite one.
    pub open spec fn allows_turn(self, requested: Direction) -> bool {
        requested != self && requested != self.opposite()
    }

    /// The two quarter turns from this heading: up and down for a horizontal
    /// heading, right and left for a vertical one.
    pub open spec fn quarter_turns(self) -> Seq<Direction> {
        match self {
            Direction::RIGHT => seq![Direction::UP, Direction::DOWN],
            Direction::LEFT => seq![Direction::UP, Direction::DOWN],
            Direction::UP => seq![Direction::RIGHT, Direction::LEFT],
            Direction::DOWN => seq![Direction::RIGHT, Direction::LEFT],
        }
    }

    /// The quarter turns are the legal turns, and no others are.
    pub proof fn lemma_quarter_turns(self, requested: Direction)
        ensures
            self.quarter_turns().len() == 2,
            self.quarter_turns().contains(requested) <==> self.allows_turn(requested),
    {
        let turns = self.quarter_turns();
        if self.allows_turn(requested) {
            assert(turns[0] == requested || turns[1] == requested);
        }
    }

    /// The unit vector of this heading, as `(dx, dy)`.
    pub fn delta(self) -> (d: (i32, i32))
        ensures
            d.0 == self.dx(),
            d.1 == self.dy(),
    {
        match self {
            Direction::UP => (0, -1),
            Direction::DOWN => (0, 1),
            Direction::LEFT => (-1, 0),
            Direction::RIGHT => (1, 0),
        }
    }

    /// The two headings to which a turn from this one is legal.
    pub fn allowable_turns(self) -> (turns: Vec<Direction>)
        ensures
            turns@ == self.quarter_turns(),
    {
        match self {
            Direction::RIGHT => vec![Direction::UP, Direction::DOWN],
            Direction::LEFT => vec![Direction::UP, Direction::DOWN],
            Direction::UP => vec![Direction::RIGHT, Direction::LEFT],
            Direction::DOWN => vec![Direction::RIGHT, Direction::LEFT],
        }
    }

    /// Whether a turn from this heading to `requested` is legal.
    pub fn can_turn_to(self, requested: Direction) -> (legal: bool)
        ensures
            legal == self.allows_turn(requested),
    {
        let turns = self.allowable_turns();
        proof {
            self.lemma_quarter_turns(requested);
        }
        let legal = turns[0] == requested || turns[1] == requested;
        assert(legal ==> turns@.contains(requested));
        legal
    }
}

impl Position {
    /// Whether the neighbour of this cell in `direction` has coordinates
    /// that an `i32` can hold.
    pub open spec fn can_step(self, direction: Direction) -> bool {
        &&& i32::MIN <= self.x + direction.dx() <= i32::MAX
        &&& i32::MIN <= self.y + direction.dy() <= i32::MAX
    }

    /// The neighbour of this cell in `direction`.
    pub open spec fn neighbour(self, direction: Direction) -> Position
        recommends
            self.can_step(direction),
    {
        Position { x: (self.x + direction.dx()) as i32, y: (self.y + direction.dy()) as i32 }
    }

    /// The neighbour of this cell in `direction`.
    pub fn step(self, direction: Direction) -> (next: Position)
        requires
            self.can_step(direction),
        ensures
            next == self.neighbour(direction),
    {
        let (dx, dy) = direction.delta();
        Position { x: self.x + dx, y: self.y + dy }
    }
}

} // verus!

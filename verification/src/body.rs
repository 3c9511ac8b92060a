//! The body of the snake: an ordered run of cells, tail first and head last.

use crate::position::{Direction, Position};
use std::collections::VecDeque;
use vstd::prelude::*;

verus! {

/// Reported when the head of a body without segments is asked for or moved.
#[derive(Clone, Copy, Debug, PartialEq, Eq, Structural)]
pub struct EmptyBodyError;

/// The cells that the snake occupies, from the tail at index 0 to the head at
/// the last index, together with the cell that the tail left on the latest
/// move, for as long as the body has not grown back into it.
#[derive(Debug)]
pub struct SnakeBody {
    cells: VecDeque<Position>,
    vacated: Option<Position>,
}

/// Whether `pos` is one of `cells`, leaving the last of them (the head) out
/// of the search when `exclude_head` is set.
pub open spec fn occupies(cells: Seq<Position>, pos: Position, exclude_head: bool) -> bool {
    exists|i: int|
        0 <= i < cells.len() && #[trigger] cells[i] == pos && !(exclude_head && i == cells.len()
            - 1)
}

impl View for SnakeBody {
    type V = Seq<Position>;

    /// The cells of the body, tail first.
    closed spec fn view(&self) -> Seq<Position> {
        self.cells@
    }
}

impl SnakeBody {
    /// The cell that the tail left on the latest move, if the body has not
    /// grown since.
    pub closed spec fn vacated(&self) -> Option<Position> {
        self.vacated
    }

    /// A body that occupies `cells`, tail first, and has not moved yet.
    pub fn from_cells(cells: &Vec<Position>) -> (body: SnakeBody)
        ensures
            body@ == cells@,
            body.vacated() is None,
    {
        let mut deque: VecDeque<Position> = VecDeque::new();
        let mut i: usize = 0;
        while i < cells.len()
            invariant
                i <= cells.len(),
                deque@ == cells@.take(i as int),
            decreases cells.len() - i,
        {
            deque.push_back(cells[i]);
            i += 1;
        }
        SnakeBody { cells: deque, vacated: None }
    }

    /// The number of segments.
    pub fn len(&self) -> (n: usize)
        ensures
            n == self@.len(),
    {
        self.cells.len()
    }

    /// The cell of the head, or the error when the body has no segment.
    pub fn head(&self) -> (res: Result<Position, EmptyBodyError>)
        ensures
            res is Ok <==> self@.len() > 0,
            res is Ok ==> res->Ok_0 == self@.last(),
    {
        let n = self.cells.len();
        if n < 1 {
            return Err(EmptyBodyError);
        }
        Ok(self.cells[n - 1])
    }

    /// Moves the body one cell in `direction`: the head's neighbour in that
    /// direction becomes the new head, and the tail leaves its cell, which is
    /// remembered. A body without segments is left as it is and reported.
    pub fn advance(&mut self, direction: Direction) -> (res: Result<(), EmptyBodyError>)
        requires
            old(self)@.len() > 0 ==> old(self)@.last().can_step(direction),
        ensures
            res is Ok <==> old(self)@.len() > 0,
            res is Ok ==> final(self)@ == old(self)@.drop_first().push(
                old(self)@.last().neighbour(direction),
            ),
            res is Ok ==> final(self).vacated() == Some(old(self)@.first()),
            res is Err ==> *final(self) == *old(self),
    {
        let head = match self.head() {
            Ok(head) => head,
            Err(e) => {
                return Err(e);
            },
        };
        let new_head = head.step(direction);
        self.vacated = self.cells.pop_front();
        self.cells.push_back(new_head);
        Ok(())
    }

    /// Puts the cell that the tail left on the latest move back at the tail
    /// end, so that the body is one segment longer than before that move.
    /// Without such a cell on record the body is left as it is. Returns
    /// whether the body grew.
    pub fn grow(&mut self) -> (grew: bool)
        ensures
            grew == old(self).vacated().is_some(),
            grew ==> final(self)@ == seq![old(self).vacated().unwrap()] + old(self)@,
            !grew ==> final(self)@ == old(self)@,
            final(self).vacated() is None,
    {
        match self.vacated {
            Some(cell) => {
                self.cells.push_front(cell);
                self.vacated = None;
                true
            },
            None => false,
        }
    }

    /// Whether the body occupies `pos`. With `exclude_head` set the head's own
    /// cell does not count, so that asking for the head's position tells
    /// whether the head shares its cell with another segment.
    pub fn contains(&self, pos: Position, exclude_head: bool) -> (found: bool)
        ensures
            found == occupies(self@, pos, exclude_head),
    {
        let n = self.cells.len();
        let end = if exclude_head && n > 0 {
            n - 1
        } else {
            n
        };
        let mut i: usize = 0;
        while i < end
            invariant
                i <= end <= self@.len(),
                exclude_head && self@.len() > 0 ==> end == self@.len() - 1,
                !exclude_head ==> end == self@.len(),
                forall|j: int| 0 <= j < i ==> self@[j] != pos,
            decreases end - i,
        {
            if self.cells[i] == pos {
                assert(self@[i as int] == pos);
                return true;
            }
            i += 1;
        }
        false
    }

    /// A snapshot of the cells, tail first.
    pub fn cells(&self) -> (snapshot: Vec<Position>)
        ensures
            snapshot@ == self@,
    {
        let mut snapshot: Vec<Position> = Vec::new();
        let mut i: usize = 0;
        while i < self.cells.len()
            invariant
                i <= self.cells@.len(),
                snapshot@ == self.cells@.take(i as int),
            decreases self.cells@.len() - i,
        {
            snapshot.push(self.cells[i]);
            i += 1;
        }
        snapshot
    }
}

} // verus!

//! The playing field.

use crate::position::Position;
use vstd::prelude::*;

verus! {

/// The dimensions of the playing field, in cells. The cells on the board are
/// those with `0 <= x < width` and `0 <= y < height`.
#[derive(Clone, Copy, Debug, PartialEq, Eq, Structural)]
pub struct Board {
    pub width: u32,
    pub height: u32,
}

/// Why no game can be played on a board.
#[derive(Clone, Copy, Debug, PartialEq, Eq, Structural)]
pub enum BoardError {
    /// The board cannot hold the snake in its starting position.
    TooSmall,
    /// A side of the board is longer than the coordinates of a cell can tell.
    TooLarge,
}

impl Board {
    /// Whether `pos` lies on the board.
    pub open spec fn contains(self, pos: Position) -> bool {
        0 <= pos.x < self.width && 0 <= pos.y < self.height
    }

    /// Whether `pos` lies on the board.
    pub fn holds(&self, pos: Position) -> (on_board: bool)
        ensures
            on_board == self.contains(pos),
    {
        pos.x >= 0 && pos.y >= 0 && (pos.x as u32) < self.width && (pos.y as u32) < self.height
    }
}

} // verus!

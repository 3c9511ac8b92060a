//! The simulation core of a snake game: a body of board cells that advances
//! one cell per tick in its current heading, grows when it eats a fruit and
//! ends the game when it leaves the board or runs into itself.
//!
//! Every function is verified against a contract stated over a mathematical
//! model of the game, [`state::GameState`].

pub mod board;
pub mod body;
pub mod fruit;
pub mod game;
pub mod interval;
pub mod position;
mod rng;
pub mod state;

pub use board::{Board, BoardError};
pub use body::{EmptyBodyError, SnakeBody};
pub use fruit::FruitSet;
pub use game::Game;
pub use position::{Direction, Position};

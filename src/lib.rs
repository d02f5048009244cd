//! The simulation core of a grid-based snake game: positions, directions, the
//! snake's movement and the game's rules for growth, food and loss.

pub mod game;
pub mod position;
pub mod snake;

pub use game::{Game, GameError};
pub use position::{is_reverse, Direction, Position};
pub use snake::Snake;

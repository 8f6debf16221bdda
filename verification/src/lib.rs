//! A verified core for a grid-based snake simulation.
//!
//! A snake occupies an ordered chain of cells on a fixed-size board,
//! advances one cell per tick in its current heading, grows when its head
//! reaches the food cell, and the food is respawned in the same tick it is
//! eaten. Movement into a cell outside the board is blocked: such a tick
//! leaves the whole state unchanged.

pub mod board;
pub mod food;
pub mod game;
pub mod laws;
pub mod segment;

pub use board::Board;
pub use board::Position;
pub use board::Direction;
pub use food::spawn_food;
pub use game::Game;
pub use game::GameView;
pub use segment::Segment;

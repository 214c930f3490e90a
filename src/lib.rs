//! A snake that moves on a character grid, eats food and grows.
//!
//! The simulation and the decisions of each frame are verified here; the
//! terminal window, keyboard polling and the actual drawing live around it.

pub mod geometry;
pub mod controls;
pub mod game;
pub mod snake;

pub use geometry::Vec2;
pub use controls::Key;
pub use game::GameState;
pub use snake::SnakeState;

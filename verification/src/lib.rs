//! A turn-based snake game played in a three-dimensional voxel grid.
//!
//! The crate holds the simulation: the grid and its coordinate arithmetic,
//! the snake, and the state machine that advances the game by one tick per
//! input. What it hands to a host for rendering is a sequence of characters
//! with their positions on the screen.

pub mod cell;
pub mod coord;
pub mod direction;
pub mod draw;
pub mod game;
pub mod grid;
pub mod snake;

pub use crate::cell::Cell;
pub use crate::coord::{contains, coord_to_screen, fits_screen, Vec3};
pub use crate::direction::Direction;
pub use crate::draw::Draw;
pub use crate::game::{GameError, GameState};
pub use crate::grid::{Grid, OutOfBounds};
pub use crate::snake::Snake;

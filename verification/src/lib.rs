//! A Snake game on a fixed toroidal grid: geometry, steering, the snake
//! itself, the arena and its food, what a frame draws, and the frame-by-frame
//! state machine that a front end drives.

pub mod arena;
pub mod direction;
pub mod food;
pub mod game;
pub mod geometry;
pub mod render;
pub mod snake;

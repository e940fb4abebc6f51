//! Simulation engine of a grid snake game: the segment chain and its moves,
//! collisions, growth, food placement, the game and menu phases, and the
//! picture chosen for each segment.

pub mod board;
pub mod events;
pub mod states;
pub mod snake;
pub mod food;
pub mod orientation;
pub mod input;
pub mod game;
pub mod menu;

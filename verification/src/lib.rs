//! A small text-dungeon engine: a sparse three-dimensional grid of rooms that
//! the player explores, extends by digging, and loots, driven by one-line text
//! commands. Every handler returns the exact line of text it would show; the
//! surrounding program only reads input and prints these lines.

pub mod actions;
pub mod commands;
pub mod geometry;
pub mod laws;
pub mod objects;
pub mod player;
pub mod random;
pub mod rooms;
pub mod text;

pub use geometry::Direction;
pub use geometry::Location;

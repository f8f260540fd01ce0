//! Engine of a snake game for a small monochrome display: the snake, the
//! food placement, and the per-tick update with its collision rules.

pub mod game;
pub mod snake;

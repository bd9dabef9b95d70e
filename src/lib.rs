//! A two-player noughts and crosses engine: the board, whose turn it is,
//! the cursor that picks a square, the rules that decide the game, and the
//! text that shows it on a terminal.

pub mod board;
pub mod game;
pub mod laws;
pub mod render;

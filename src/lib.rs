//! Tic-tac-toe game state: a 3x3 board, whose turn it is, win detection,
//! and the mapping from pointer coordinates to board cells.

pub mod board;
pub mod grid;
pub mod layout;

//! Rules of a two-player chess board: which moves a piece may make, what a
//! move does to the board, and the fixed-width byte form of a board.

pub mod board;
pub mod codec;
pub mod game;
pub mod laws;
pub mod numbers;
pub mod piece;
pub mod rules;
pub mod stage;
pub mod transport;

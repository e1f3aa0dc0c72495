//! A falling-block puzzle engine: the board, the seven tetrominoes, the moves
//! that are accepted on a board, and the rules of one tick of the game.

pub mod geometry;
pub mod piece;
pub mod board;
pub mod transform;
pub mod input;
pub mod game;
pub mod laws;

//! Rules kernel for a two-player game on an 8×8 board: move geometry,
//! blocking, captures, castling, en passant, promotion and self-check.

pub mod location;
pub mod chess_move;
pub mod piece;
pub mod board;

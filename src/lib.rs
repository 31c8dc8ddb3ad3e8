//! Move legality for the pieces of a chess variant on an 8x8 board.
//!
//! `chesspiece` holds the pieces and the geometric rule of each kind;
//! `chessboard` holds the board, the squares and the move pipeline that
//! checks a move request end to end.
use vstd::prelude::*;

pub mod chessboard;
pub mod chesspiece;

verus! {

} // verus!

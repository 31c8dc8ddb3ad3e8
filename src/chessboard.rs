//! The board, its squares, and the pipeline that checks a move request.
use vstd::prelude::*;

use crate::chesspiece::{evaluation, Piece};

verus! {

/// Row step of a white pawn moving forward.
pub const UP: isize = -1;

/// Row step of a black pawn moving forward.
pub const DOWN: isize = 1;

/// Number of rows, and of columns, of the board.
pub const BOARDSIDELENGTH: usize = 8;

/// A square as (row, column), both counted from zero.
pub type ChessSquare = [usize; 2];

/// The board, indexed by row and then by column; `None` is an empty cell.
pub type ChessBoard = [[Option<Piece>; BOARDSIDELENGTH]; BOARDSIDELENGTH];

#[derive(Clone, Copy, Debug, PartialEq, Eq)]
pub enum MoveError {
    OutOfBounds,
    InvalidMove,
    SameSquare,
    NoPiece,
}

/// Whether a single coordinate lies on the board.
pub open spec fn coordinate_on_board(val: usize) -> bool {
    val < BOARDSIDELENGTH
}

/// Whether both coordinates of a square lie on the board.
pub open spec fn square_on_board(s: ChessSquare) -> bool {
    coordinate_on_board(s[0]) && coordinate_on_board(s[1])
}

/// Whether two squares are the same square.
pub open spec fn same_square(a: ChessSquare, b: ChessSquare) -> bool {
    a[0] == b[0] && a[1] == b[1]
}

/// The cell of the board at a square that lies on it.
pub open spec fn cell(board: ChessBoard, s: ChessSquare) -> Option<Piece> {
    board[s[0] as int][s[1] as int]
}

/// What a move request gives: the first failed check in the order same
/// square, source off the board, empty source, then the piece's own
/// evaluation; on success the board as it was given.
pub open spec fn move_outcome(board: ChessBoard, from: ChessSquare, to: ChessSquare) -> Result<
    ChessBoard,
    MoveError,
> {
    if same_square(from, to) {
        Err(MoveError::SameSquare)
    } else if !square_on_board(from) {
        Err(MoveError::OutOfBounds)
    } else {
        match cell(board, from) {
            None => Err(MoveError::NoPiece),
            Some(piece) => match evaluation(piece, from, to) {
                Ok(_) => Ok(board),
                Err(e) => Err(e),
            },
        }
    }
}

/// Checks a request to move the piece on `square_1` to `square_2`.
///
/// Both coordinates of the source are checked before the board is read, so
/// a source off the board gives `OutOfBounds`. The board that comes back on
/// success is the one that was given: occupancy is not updated here.
pub fn make_move(board: ChessBoard, square_1: ChessSquare, square_2: ChessSquare) -> (r: Result<
    ChessBoard,
    MoveError,
>)
    ensures
        r == move_outcome(board, square_1, square_2),
        same_square(square_1, square_2) ==> r == Err::<ChessBoard, MoveError>(
            MoveError::SameSquare,
        ),
        !same_square(square_1, square_2) && !square_on_board(square_1) ==> r == Err::<
            ChessBoard,
            MoveError,
        >(MoveError::OutOfBounds),
        !same_square(square_1, square_2) && square_on_board(square_1) && cell(board, square_1)
            is Some && !square_on_board(square_2) ==> r == Err::<ChessBoard, MoveError>(
            MoveError::OutOfBounds,
        ),
        !same_square(square_1, square_2) && square_on_board(square_1) && cell(board, square_1)
            is None ==> r == Err::<ChessBoard, MoveError>(MoveError::NoPiece),
        r matches Ok(b) ==> b == board,
{
    if square_1[0] == square_2[0] && square_1[1] == square_2[1] {
        return Err(MoveError::SameSquare);
    }
    if in_bounds(square_1[0]).is_err() || in_bounds(square_1[1]).is_err() {
        return Err(MoveError::OutOfBounds);
    }
    if let Some(piece) = board[square_1[0]][square_1[1]] {
        match piece.valid_move(board, square_1, square_2) {
            Ok(_) => {},
            Err(e) => return Err(e),
        }
    } else {
        return Err(MoveError::NoPiece);
    }
    Ok(board)
}

pub fn in_bounds(val: usize) -> (r: Result<(), MoveError>)
    ensures
        r == (if coordinate_on_board(val) {
            Ok::<(), MoveError>(())
        } else {
            Err(MoveError::OutOfBounds)
        }),
{
    if val > BOARDSIDELENGTH - 1 {
        return Err(MoveError::OutOfBounds);
    }
    Ok(())
}

} // verus!

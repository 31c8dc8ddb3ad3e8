//! Pieces and the geometric movement rule of each kind.
use vstd::prelude::*;

use crate::chessboard::{
    in_bounds, square_on_board, ChessBoard, ChessSquare, MoveError, DOWN, UP,
};

verus! {

#[derive(Clone, Copy, Debug, PartialEq, Eq)]
pub enum PieceColor {
    White,
    Black,
}

#[derive(Clone, Copy, Debug, PartialEq, Eq)]
pub enum PieceKind {
    Pawn,
    Knight,
    Bishop,
    Rook,
    Queen,
    King,
}

/// A piece on the board. `first_move` is true until the piece has made a
/// move that its rule accepted.
#[derive(Clone, Copy, Debug, PartialEq, Eq)]
pub struct Piece {
    pub kind: PieceKind,
    pub color: PieceColor,
    pub first_move: bool,
}

/// Material value of a piece of the given kind; the king counts for nothing.
pub open spec fn kind_value(kind: PieceKind) -> int {
    match kind {
        PieceKind::Pawn => 1,
        PieceKind::Knight => 3,
        PieceKind::Bishop => 3,
        PieceKind::Rook => 5,
        PieceKind::Queen => 9,
        PieceKind::King => 0,
    }
}

/// The distance between two coordinates along one axis.
pub open spec fn abs_diff(a: usize, b: usize) -> int {
    if a >= b {
        a - b
    } else {
        b - a
    }
}

/// Number of rows between the two squares, whatever the direction.
pub open spec fn row_delta(from: ChessSquare, to: ChessSquare) -> int {
    abs_diff(from[0], to[0])
}

/// Number of columns between the two squares, whatever the direction.
pub open spec fn col_delta(from: ChessSquare, to: ChessSquare) -> int {
    abs_diff(from[1], to[1])
}

/// The row step that takes a pawn of this color one square forward:
/// white moves toward row 0, black toward row 7.
pub open spec fn forward_step(color: PieceColor) -> int {
    match color {
        PieceColor::White => UP as int,
        PieceColor::Black => DOWN as int,
    }
}

/// A knight moves one square along one axis and two along the other.
pub open spec fn knight_allows(rd: int, cd: int) -> bool {
    (rd == 1 && cd == 2) || (rd == 2 && cd == 1)
}

/// Whether the rule of the piece's kind accepts a move between two squares.
///
/// Sliding pieces are judged by geometry alone: squares in between are not
/// looked at. A pawn never leaves its column, not even onto an occupied
/// square, so what stands on the destination does not change the outcome.
pub open spec fn geometry_allows(piece: Piece, from: ChessSquare, to: ChessSquare) -> bool {
    let rd = row_delta(from, to);
    let cd = col_delta(from, to);
    match piece.kind {
        PieceKind::Pawn => {
            let step = to[0] as int - from[0] as int;
            let dir = forward_step(piece.color);
            &&& step == dir || (piece.first_move && step == 2 * dir)
            &&& cd == 0
        },
        PieceKind::Knight => knight_allows(rd, cd),
        PieceKind::Bishop => rd == cd,
        PieceKind::Rook => rd == 0 || cd == 0,
        PieceKind::Queen => rd == cd || rd == 0 || cd == 0,
        PieceKind::King => rd <= 1 && cd <= 1,
    }
}

/// The piece after it has moved: same kind and color, history flag cleared.
pub open spec fn moved(piece: Piece) -> Piece {
    Piece { kind: piece.kind, color: piece.color, first_move: false }
}

/// What evaluating a move of `piece` from `from` to `to` gives.
pub open spec fn evaluation(piece: Piece, from: ChessSquare, to: ChessSquare) -> Result<
    Piece,
    MoveError,
> {
    if !square_on_board(from) || !square_on_board(to) {
        Err(MoveError::OutOfBounds)
    } else if geometry_allows(piece, from, to) {
        Ok(moved(piece))
    } else {
        Err(MoveError::InvalidMove)
    }
}

/// Whether the displacement `(dr2, dc2)` is the image of `(dr1, dc1)` under one
/// of the eight symmetries of the square: a sign change on either axis,
/// possibly together with swapping the two axes.
pub open spec fn symmetric_displacement(dr1: int, dc1: int, dr2: int, dc2: int) -> bool {
    ||| (dr2 == dr1 || dr2 == -dr1) && (dc2 == dc1 || dc2 == -dc1)
    ||| (dr2 == dc1 || dr2 == -dc1) && (dc2 == dr1 || dc2 == -dr1)
}

/// A knight's move is accepted exactly when its image under any of the eight
/// symmetries of the square is: knight legality depends on the displacement
/// only up to reflection across the axes and the diagonals, whatever the
/// knights' colors and histories.
pub proof fn lemma_knight_symmetry(
    knight1: Piece,
    from1: ChessSquare,
    to1: ChessSquare,
    knight2: Piece,
    from2: ChessSquare,
    to2: ChessSquare,
)
    requires
        knight1.kind == PieceKind::Knight,
        knight2.kind == PieceKind::Knight,
        square_on_board(from1),
        square_on_board(to1),
        square_on_board(from2),
        square_on_board(to2),
        symmetric_displacement(
            to1[0] as int - from1[0] as int,
            to1[1] as int - from1[1] as int,
            to2[0] as int - from2[0] as int,
            to2[1] as int - from2[1] as int,
        ),
    ensures
        evaluation(knight1, from1, to1) is Ok <==> evaluation(knight2, from2, to2) is Ok,
{
}

fn distance(a: usize, b: usize) -> (r: usize)
    ensures
        r == abs_diff(a, b),
{
    if a >= b {
        a - b
    } else {
        b - a
    }
}

impl Piece {
    pub fn new(kind: PieceKind, color: PieceColor) -> (r: Self)
        ensures
            r == (Piece { kind, color, first_move: true }),
    {
        Self { kind, color, first_move: true }
    }

    pub fn value(&self) -> (r: i8)
        ensures
            r == kind_value(self.kind),
    {
        match self.kind {
            PieceKind::Pawn => 1,
            PieceKind::Knight => 3,
            PieceKind::Bishop => 3,
            PieceKind::Rook => 5,
            PieceKind::Queen => 9,
            PieceKind::King => 0,
        }
    }

    /// Checks the move from `square_1` to `square_2` against this piece's
    /// rule and returns the piece as it stands after the move.
    ///
    /// The two squares are expected to differ; that is the caller's check.
    pub fn valid_move(self, board: ChessBoard, square_1: ChessSquare, square_2: ChessSquare) -> (r:
        Result<Self, MoveError>)
        ensures
            r == evaluation(self, square_1, square_2),
            !square_on_board(square_1) || !square_on_board(square_2) ==> r == Err::<
                Self,
                MoveError,
            >(MoveError::OutOfBounds),
            r matches Ok(p) ==> p.kind == self.kind && p.color == self.color && !p.first_move,
    {
        if in_bounds(square_1[0]).is_err() || in_bounds(square_1[1]).is_err() || in_bounds(
            square_2[0],
        ).is_err() || in_bounds(square_2[1]).is_err() {
            return Err(MoveError::OutOfBounds);
        }
        let x_dif = distance(square_1[1], square_2[1]);
        let y_dif = distance(square_1[0], square_2[0]);

        let attacking = board[square_2[0]][square_2[1]].is_some();

        match self.kind {
            PieceKind::Pawn => {
                let up_or_down: isize = match self.color {
                    PieceColor::White => UP,
                    PieceColor::Black => DOWN,
                };
                // Signed row step, in the direction the pawn travels.
                let y_dif_direction: isize = square_2[0] as isize - square_1[0] as isize;
                let single_step = y_dif_direction == up_or_down;
                let double_step = y_dif_direction == up_or_down * 2;
                if !single_step && (!self.first_move || !double_step) {
                    return Err(MoveError::InvalidMove);
                }
                // A pawn stays in its column, also when the destination is occupied.
                if attacking && x_dif == 1 && single_step {
                    return Err(MoveError::InvalidMove);
                } else if square_1[1] != square_2[1] {
                    return Err(MoveError::InvalidMove);
                }
                Ok(Self { kind: self.kind, color: self.color, first_move: false })
            },
            PieceKind::Knight => {
                if !((x_dif == 1 && y_dif == 2) || (x_dif == 2 && y_dif == 1)) {
                    return Err(MoveError::InvalidMove);
                }
                Ok(Self { kind: self.kind, color: self.color, first_move: false })
            },
            PieceKind::Bishop => {
                if x_dif != y_dif {
                    return Err(MoveError::InvalidMove);
                }
                Ok(Self { kind: self.kind, color: self.color, first_move: false })
            },
            PieceKind::Rook => {
                if x_dif != 0 && y_dif != 0 {
                    return Err(MoveError::InvalidMove);
                }
                Ok(Self { kind: self.kind, color: self.color, first_move: false })
            },
            PieceKind::Queen => {
                if x_dif != y_dif && x_dif != 0 && y_dif != 0 {
                    return Err(MoveError::InvalidMove);
                }
                Ok(Self { kind: self.kind, color: self.color, first_move: false })
            },
            PieceKind::King => {
                if x_dif > 1 || y_dif > 1 {
                    return Err(MoveError::InvalidMove);
                }
                Ok(Self { kind: self.kind, color: self.color, first_move: false })
            },
        }
    }
}

} // verus!

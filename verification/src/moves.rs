//! How each kind of piece moves, and whether a given move is legal.
//!
//! A move is legal when the destination is not held by a piece of the
//! mover's own side and the move has the shape that the mover's kind allows.
//! Sliding pieces (queen, bishop, rook) and the pawn's double step also need
//! the squares they pass over to be empty.

use vstd::prelude::*;

use crate::color::PieceColor;
use crate::occupancy::{color_at, color_of_square, lemma_bystander_keeps_color, occupied};
use crate::path::{distance, gap, is_path_empty, passes_over, path_is_clear};
use crate::piece::{Piece, PieceType};

verus! {

/// The distance between the files of two squares.
pub open spec fn file_gap(from: (u8, u8), to: (u8, u8)) -> int {
    gap(from.0 as int, to.0 as int)
}

/// The distance between the ranks of two squares.
pub open spec fn rank_gap(from: (u8, u8), to: (u8, u8)) -> int {
    gap(from.1 as int, to.1 as int)
}

/// A step to one of the eight neighbouring squares.
pub open spec fn king_step(from: (u8, u8), to: (u8, u8)) -> bool {
    &&& file_gap(from, to) <= 1
    &&& rank_gap(from, to) <= 1
    &&& from != to
}

/// A move that changes file and rank by the same amount, which may be zero.
pub open spec fn diagonal(from: (u8, u8), to: (u8, u8)) -> bool {
    file_gap(from, to) == rank_gap(from, to)
}

/// A move that changes the file or the rank, and not both.
pub open spec fn straight(from: (u8, u8), to: (u8, u8)) -> bool {
    (from.0 == to.0) != (from.1 == to.1)
}

/// Two squares along one axis and one along the other.
pub open spec fn knight_jump(from: (u8, u8), to: (u8, u8)) -> bool {
    ||| file_gap(from, to) == 2 && rank_gap(from, to) == 1
    ||| file_gap(from, to) == 1 && rank_gap(from, to) == 2
}

impl Piece {
    /// `to` is the square straight ahead of this piece, as a pawn of its side
    /// advances.
    pub open spec fn one_ahead(self, to: (u8, u8)) -> bool {
        to.0 - self.x == self.color.forward() && to.1 == self.y
    }

    /// `to` is two squares straight ahead of this piece.
    pub open spec fn two_ahead(self, to: (u8, u8)) -> bool {
        to.0 - self.x == 2 * self.color.forward() && to.1 == self.y
    }

    /// `to` is one square ahead of this piece and one to the side.
    pub open spec fn diagonally_ahead(self, to: (u8, u8)) -> bool {
        to.0 - self.x == self.color.forward() && gap(self.y as int, to.1 as int) == 1
    }

    /// Whether this piece, as a pawn, may go to `to`.
    ///
    /// One square ahead onto an empty square; from the file where its side's
    /// pawns start, two squares ahead over an empty square onto an empty
    /// square; or one square diagonally ahead onto a piece of the other side.
    pub open spec fn pawn_move(self, to: (u8, u8), pieces: Seq<Piece>) -> bool {
        ||| self.one_ahead(to) && color_at(to, pieces) is None
        ||| {
            &&& self.x == self.color.pawn_file()
            &&& self.two_ahead(to)
            &&& path_is_clear(self.square(), to, pieces)
            &&& color_at(to, pieces) is None
        }
        ||| self.diagonally_ahead(to) && color_at(to, pieces) == Some(self.color.opposite())
    }

    /// Whether the move to `to` has the shape that this piece's kind allows,
    /// with the squares it passes over empty where the kind cannot jump.
    pub open spec fn move_shape(self, to: (u8, u8), pieces: Seq<Piece>) -> bool {
        let from = self.square();
        match self.piece_type {
            PieceType::King => king_step(from, to),
            PieceType::Queen => path_is_clear(from, to, pieces) && (diagonal(from, to) || straight(
                from,
                to,
            )),
            PieceType::Bishop => path_is_clear(from, to, pieces) && diagonal(from, to) && from
                != to,
            PieceType::Knight => knight_jump(from, to),
            PieceType::Rook => path_is_clear(from, to, pieces) && straight(from, to),
            PieceType::Pawn => self.pawn_move(to, pieces),
        }
    }

    /// Whether this piece may move to `to` on the board `pieces`.
    pub open spec fn legal_move(self, to: (u8, u8), pieces: Seq<Piece>) -> bool {
        color_at(to, pieces) != Some(self.color) && self.move_shape(to, pieces)
    }

    /// The square straight ahead of this piece.
    pub open spec fn square_ahead(self) -> (u8, u8) {
        ((self.x + self.color.forward()) as u8, self.y)
    }

    /// Whether this piece may move to `new_position` on the board `pieces`.
    ///
    /// The board may hold the piece itself or not: only other squares are
    /// looked at, but for the destination. A destination held by a piece of
    /// the mover's own side is never legal. Otherwise:
    ///
    /// - the king steps to a neighbouring square;
    /// - the queen slides any distance along a file, a rank or a diagonal;
    /// - the bishop slides a nonzero distance along a diagonal;
    /// - the knight jumps two squares along one axis and one along the other,
    ///   whatever stands in between;
    /// - the rook slides a nonzero distance along a file or a rank;
    /// - the pawn goes one square ahead onto an empty square, two squares
    ///   ahead from its starting file over and onto empty squares, or one
    ///   square diagonally ahead onto a piece of the other side. White pawns
    ///   advance towards higher files and start on file 1, black pawns
    ///   advance towards lower files and start on file 6.
    ///
    /// Squares off the board are not rejected: the rules are applied to the
    /// numbers as they are.
    pub fn is_move_valid(&self, new_position: (u8, u8), pieces: Vec<Piece>) -> (valid: bool)
        ensures
            valid == self.legal_move(new_position, pieces@),
            color_at(new_position, pieces@) == Some(self.color) ==> !valid,
            self.piece_type is Pawn && self.two_ahead(new_position) ==> (valid <==> {
                &&& self.x == self.color.pawn_file()
                &&& !occupied(self.square_ahead(), pieces@)
                &&& !occupied(new_position, pieces@)
            }),
    {
        proof {
            if self.piece_type is Pawn && self.two_ahead(new_position) {
                lemma_double_step(*self, new_position, pieces@);
            }
        }
        let target: Option<PieceColor> = color_of_square(new_position, &pieces);
        let friendly: bool = match target {
            Some(color) => color == self.color,
            None => false,
        };
        if friendly {
            return false;
        }
        let from: (u8, u8) = (self.x, self.y);
        let x_diff: u8 = distance(self.x, new_position.0);
        let y_diff: u8 = distance(self.y, new_position.1);
        let along_diagonal: bool = x_diff == y_diff;
        let along_line: bool = (x_diff == 0) != (y_diff == 0);
        match self.piece_type {
            PieceType::King => x_diff <= 1 && y_diff <= 1 && (x_diff == 1 || y_diff == 1),
            PieceType::Queen => is_path_empty(from, new_position, &pieces) && (along_diagonal
                || along_line),
            PieceType::Bishop => is_path_empty(from, new_position, &pieces) && along_diagonal
                && x_diff != 0,
            PieceType::Knight => (x_diff == 2 && y_diff == 1) || (x_diff == 1 && y_diff == 2),
            PieceType::Rook => is_path_empty(from, new_position, &pieces) && along_line,
            PieceType::Pawn => {
                let ahead: i16 = match self.color {
                    PieceColor::White => 1,
                    PieceColor::Black => -1,
                };
                let start: u8 = match self.color {
                    PieceColor::White => 1,
                    PieceColor::Black => 6,
                };
                let advance: i16 = new_position.0 as i16 - self.x as i16;
                let free: bool = target.is_none();
                let enemy: bool = match target {
                    Some(color) => color == self.color.opposite(),
                    None => false,
                };
                if advance == ahead && y_diff == 0 && free {
                    return true;
                }
                if self.x == start && advance == 2 * ahead && y_diff == 0 && is_path_empty(
                    from,
                    new_position,
                    &pieces,
                ) && free {
                    return true;
                }
                advance == ahead && y_diff == 1 && enemy
            },
        }
    }
}

/// A pawn's move two squares straight ahead is legal exactly when the pawn
/// stands on its side's starting file and both the square it passes over and
/// the square it lands on are empty.
pub proof fn lemma_double_step(pawn: Piece, to: (u8, u8), pieces: Seq<Piece>)
    requires
        pawn.piece_type is Pawn,
        pawn.two_ahead(to),
    ensures
        pawn.legal_move(to, pieces) <==> {
            &&& pawn.x == pawn.color.pawn_file()
            &&& !occupied(pawn.square_ahead(), pieces)
            &&& !occupied(to, pieces)
        },
{
    let from = pawn.square();
    let middle = pawn.square_ahead();
    if path_is_clear(from, to, pieces) {
        if occupied(middle, pieces) {
            let i = choose|i: int| 0 <= i < pieces.len() && (#[trigger] pieces[i]).stands_on(middle);
            assert(passes_over(from, to, pieces[i].square()));
        }
    }
    if !occupied(middle, pieces) {
        assert forall|i: int| 0 <= i < pieces.len() implies !passes_over(
            from,
            to,
            (#[trigger] pieces[i]).square(),
        ) by {
            if passes_over(from, to, pieces[i].square()) {
                assert(pieces[i].stands_on(middle));
            }
        }
    }
}

/// Whether a knight's move is legal depends on the board only through the
/// piece that holds the destination.
pub proof fn lemma_knight_sees_only_destination(
    knight: Piece,
    to: (u8, u8),
    board: Seq<Piece>,
    other_board: Seq<Piece>,
)
    requires
        knight.piece_type is Knight,
        color_at(to, board) == color_at(to, other_board),
    ensures
        knight.legal_move(to, board) == knight.legal_move(to, other_board),
{
}

/// Putting one more piece on a square that is not the destination never
/// changes whether a knight's move is legal: knights jump.
pub proof fn lemma_knight_ignores_bystanders(
    knight: Piece,
    to: (u8, u8),
    pieces: Seq<Piece>,
    at: int,
    extra: Piece,
)
    requires
        knight.piece_type is Knight,
        0 <= at <= pieces.len(),
        !extra.stands_on(to),
    ensures
        knight.legal_move(to, pieces.insert(at, extra)) == knight.legal_move(to, pieces),
{
    lemma_bystander_keeps_color(to, pieces, at, extra);
}

} // verus!

//! Pieces and the squares they stand on.

use vstd::prelude::*;

use crate::color::PieceColor;

verus! {

/// The six kinds of piece.
#[derive(Clone, Copy, PartialEq, Eq, Structural, Debug)]
pub enum PieceType {
    King,
    Queen,
    Bishop,
    Knight,
    Rook,
    Pawn,
}

/// A piece on the board: its side, its kind and the square it stands on.
#[derive(Clone, Copy, PartialEq, Eq, Structural, Debug)]
pub struct Piece {
    pub color: PieceColor,
    pub piece_type: PieceType,
    /// File of the square the piece stands on.
    pub x: u8,
    /// Rank of the square the piece stands on.
    pub y: u8,
}

impl Piece {
    /// The square the piece stands on.
    pub open spec fn square(self) -> (u8, u8) {
        (self.x, self.y)
    }

    /// Whether the piece stands on `pos`.
    pub open spec fn stands_on(self, pos: (u8, u8)) -> bool {
        self.x == pos.0 && self.y == pos.1
    }
}

} // verus!

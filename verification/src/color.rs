//! The two sides.

use vstd::prelude::*;

verus! {

/// The side a piece plays for.
#[derive(Clone, Copy, PartialEq, Eq, Structural, Debug)]
pub enum PieceColor {
    White,
    Black,
}

impl PieceColor {
    /// The other side.
    pub open spec fn spec_opposite(self) -> PieceColor {
        match self {
            PieceColor::White => PieceColor::Black,
            PieceColor::Black => PieceColor::White,
        }
    }

    /// The direction in which this side's pawns advance along the file axis.
    pub open spec fn forward(self) -> int {
        match self {
            PieceColor::White => 1,
            PieceColor::Black => -1,
        }
    }

    /// The file on which this side's pawns start.
    pub open spec fn pawn_file(self) -> int {
        match self {
            PieceColor::White => 1,
            PieceColor::Black => 6,
        }
    }

    /// The name of this side, as shown in diagnostics.
    pub open spec fn spec_name(self) -> Seq<char> {
        match self {
            PieceColor::White => "White"@,
            PieceColor::Black => "Black"@,
        }
    }

    /// The other side.
    #[verifier::when_used_as_spec(spec_opposite)]
    pub fn opposite(self) -> (other: PieceColor)
        ensures
            other == self.spec_opposite(),
            other != self,
    {
        match self {
            PieceColor::White => PieceColor::Black,
            PieceColor::Black => PieceColor::White,
        }
    }

    /// The name of this side: `"White"` or `"Black"`.
    pub fn name(&self) -> (text: String)
        ensures
            text@ == self.spec_name(),
    {
        match self {
            PieceColor::White => "White".to_owned(),
            PieceColor::Black => "Black".to_owned(),
        }
    }
}

/// Taking the other side twice gives the side one started from.
pub proof fn opposite_is_an_involution(color: PieceColor)
    ensures
        color.opposite().opposite() == color,
        color.opposite() != color,
{
}

} // verus!

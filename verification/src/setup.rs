//! The position from which a game starts.
//!
//! Each side has eight pawns on its pawn file and, on its back file, rooks
//! on ranks 0 and 7, knights on ranks 1 and 6, bishops on ranks 2 and 5, the
//! queen on rank 3 and the king on rank 4. White's back file is 0 and its
//! pawns stand on file 1; Black's back file is 7 and its pawns stand on
//! file 6.

use vstd::prelude::*;

use crate::color::PieceColor;
use crate::occupancy::collision_free;
use crate::piece::{Piece, PieceType};

verus! {

impl PieceColor {
    /// The file on which this side's pieces other than pawns start.
    pub open spec fn back_file(self) -> int {
        match self {
            PieceColor::White => 0,
            PieceColor::Black => 7,
        }
    }
}

/// Whether a game starts with `piece` where it stands.
pub open spec fn starts_game(piece: Piece) -> bool {
    match piece.piece_type {
        PieceType::Pawn => piece.x == piece.color.pawn_file() && piece.y <= 7,
        PieceType::Rook => piece.x == piece.color.back_file() && (piece.y == 0 || piece.y == 7),
        PieceType::Knight => piece.x == piece.color.back_file() && (piece.y == 1 || piece.y == 6),
        PieceType::Bishop => piece.x == piece.color.back_file() && (piece.y == 2 || piece.y == 5),
        PieceType::Queen => piece.x == piece.color.back_file() && piece.y == 3,
        PieceType::King => piece.x == piece.color.back_file() && piece.y == 4,
    }
}

/// The place of a starting piece in the list that `starting_pieces` returns:
/// pawns first, then rooks, knights, bishops, queens and kings, White before
/// Black within each kind.
spec fn slot(piece: Piece) -> int {
    let second = match piece.color {
        PieceColor::White => 0int,
        PieceColor::Black => 1int,
    };
    let far = if piece.y <= 3 {
        0int
    } else {
        1int
    };
    match piece.piece_type {
        PieceType::Pawn => 8 * second + piece.y,
        PieceType::Rook => 16 + 2 * second + far,
        PieceType::Knight => 20 + 2 * second + far,
        PieceType::Bishop => 24 + 2 * second + far,
        PieceType::Queen => 28 + second,
        PieceType::King => 30 + second,
    }
}

/// Every piece of `pieces` starts a game and sits in its own place.
spec fn in_place(pieces: Seq<Piece>) -> bool {
    forall|i: int| 0 <= i < pieces.len() ==> starts_game(#[trigger] pieces[i]) && slot(pieces[i]) == i
}

/// Appends the eight pawns of one side.
fn push_pawns(pieces: &mut Vec<Piece>, color: PieceColor, file: u8)
    requires
        file == color.pawn_file(),
        old(pieces)@.len() == slot(Piece { color, piece_type: PieceType::Pawn, x: file, y: 0 }),
        in_place(old(pieces)@),
    ensures
        final(pieces)@.len() == old(pieces)@.len() + 8,
        in_place(final(pieces)@),
{
    let ghost before = pieces@.len();
    let mut rank: u8 = 0;
    while rank < 8
        invariant
            rank <= 8,
            file == color.pawn_file(),
            before == slot(Piece { color, piece_type: PieceType::Pawn, x: file, y: 0 }),
            pieces@.len() == before + rank,
            in_place(pieces@),
        decreases 8 - rank,
    {
        pieces.push(Piece { color, piece_type: PieceType::Pawn, x: file, y: rank });
        rank += 1;
    }
}

/// Appends the two pieces of one kind and one side that start on the ranks
/// `near` and `far`.
fn push_pair(
    pieces: &mut Vec<Piece>,
    color: PieceColor,
    piece_type: PieceType,
    file: u8,
    near: u8,
    far: u8,
)
    requires
        starts_game(Piece { color, piece_type, x: file, y: near }),
        starts_game(Piece { color, piece_type, x: file, y: far }),
        old(pieces)@.len() == slot(Piece { color, piece_type, x: file, y: near }),
        old(pieces)@.len() + 1 == slot(Piece { color, piece_type, x: file, y: far }),
        in_place(old(pieces)@),
    ensures
        final(pieces)@.len() == old(pieces)@.len() + 2,
        in_place(final(pieces)@),
{
    pieces.push(Piece { color, piece_type, x: file, y: near });
    pieces.push(Piece { color, piece_type, x: file, y: far });
}

/// The thirty-two pieces of the starting position.
///
/// The list holds each piece that starts a game once and nothing else, so no
/// two of its pieces share a square.
pub fn starting_pieces() -> (pieces: Vec<Piece>)
    ensures
        pieces@.len() == 32,
        collision_free(pieces@),
        forall|piece: Piece| pieces@.contains(piece) <==> starts_game(piece),
{
    let mut pieces: Vec<Piece> = Vec::new();
    push_pawns(&mut pieces, PieceColor::White, 1);
    push_pawns(&mut pieces, PieceColor::Black, 6);
    push_pair(&mut pieces, PieceColor::White, PieceType::Rook, 0, 0, 7);
    push_pair(&mut pieces, PieceColor::Black, PieceType::Rook, 7, 0, 7);
    push_pair(&mut pieces, PieceColor::White, PieceType::Knight, 0, 1, 6);
    push_pair(&mut pieces, PieceColor::Black, PieceType::Knight, 7, 1, 6);
    push_pair(&mut pieces, PieceColor::White, PieceType::Bishop, 0, 2, 5);
    push_pair(&mut pieces, PieceColor::Black, PieceType::Bishop, 7, 2, 5);
    pieces.push(Piece { color: PieceColor::White, piece_type: PieceType::Queen, x: 0, y: 3 });
    pieces.push(Piece { color: PieceColor::Black, piece_type: PieceType::Queen, x: 7, y: 3 });
    pieces.push(Piece { color: PieceColor::White, piece_type: PieceType::King, x: 0, y: 4 });
    pieces.push(Piece { color: PieceColor::Black, piece_type: PieceType::King, x: 7, y: 4 });
    proof {
        lemma_in_place_is_complete(pieces@);
    }
    pieces
}

/// A list of thirty-two starting pieces, each in its own place, is the
/// starting position.
proof fn lemma_in_place_is_complete(pieces: Seq<Piece>)
    requires
        pieces.len() == 32,
        in_place(pieces),
    ensures
        collision_free(pieces),
        forall|piece: Piece| pieces.contains(piece) <==> starts_game(piece),
{
    assert forall|piece: Piece| starts_game(piece) implies pieces.contains(piece) by {
        let i = slot(piece);
        assert(0 <= i < 32);
        lemma_one_piece_per_slot(pieces[i], piece);
    }
    assert forall|i: int, j: int| 0 <= i < j < pieces.len() implies !(#[trigger] pieces[i]).stands_on(
        (#[trigger] pieces[j]).square(),
    ) by {
        if pieces[i].stands_on(pieces[j].square()) {
            lemma_one_piece_per_square(pieces[i], pieces[j]);
        }
    }
}

/// Two starting pieces with the same place are the same piece.
proof fn lemma_one_piece_per_slot(a: Piece, b: Piece)
    requires
        starts_game(a),
        starts_game(b),
        slot(a) == slot(b),
    ensures
        a == b,
{
}

/// Two starting pieces on the same square are the same piece.
proof fn lemma_one_piece_per_square(a: Piece, b: Piece)
    requires
        starts_game(a),
        starts_game(b),
        a.stands_on(b.square()),
    ensures
        a == b,
{
}

} // verus!

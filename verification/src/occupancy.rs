//! Who stands on a square.
//!
//! A board is a list of pieces. A well-formed board has no two pieces on one
//! square ([`collision_free`]), but nothing here depends on that: where
//! several pieces share a square, the first of them in the list is the one
//! that counts.

use vstd::prelude::*;

use crate::color::PieceColor;
use crate::piece::Piece;

verus! {

/// Some piece of `pieces` stands on `pos`.
pub open spec fn occupied(pos: (u8, u8), pieces: Seq<Piece>) -> bool {
    exists|i: int| 0 <= i < pieces.len() && (#[trigger] pieces[i]).stands_on(pos)
}

/// `pieces[i]` stands on `pos`, and no piece before it does.
pub open spec fn first_on(pos: (u8, u8), pieces: Seq<Piece>, i: int) -> bool {
    &&& 0 <= i < pieces.len()
    &&& pieces[i].stands_on(pos)
    &&& forall|j: int| 0 <= j < i ==> !(#[trigger] pieces[j]).stands_on(pos)
}

/// The side of the first piece of `pieces` that stands on `pos`, or `None`
/// where the square is empty.
pub open spec fn color_at(pos: (u8, u8), pieces: Seq<Piece>) -> Option<PieceColor> {
    if occupied(pos, pieces) {
        Some(pieces[choose|i: int| first_on(pos, pieces, i)].color)
    } else {
        None
    }
}

/// No two pieces of `pieces` stand on the same square.
pub open spec fn collision_free(pieces: Seq<Piece>) -> bool {
    forall|i: int, j: int|
        #![trigger pieces[i], pieces[j]]
        0 <= i < j < pieces.len() ==> !pieces[i].stands_on(pieces[j].square())
}

/// Where a piece stands on `pos`, one of them is the first to do so.
pub proof fn lemma_occupied_has_first(pos: (u8, u8), pieces: Seq<Piece>, i: int)
    requires
        0 <= i < pieces.len(),
        pieces[i].stands_on(pos),
    ensures
        exists|k: int| 0 <= k <= i && first_on(pos, pieces, k),
    decreases i,
{
    if exists|j: int| 0 <= j < i && (#[trigger] pieces[j]).stands_on(pos) {
        let j = choose|j: int| 0 <= j < i && (#[trigger] pieces[j]).stands_on(pos);
        lemma_occupied_has_first(pos, pieces, j);
    } else {
        assert(first_on(pos, pieces, i));
    }
}

/// The first piece on a square gives the square its colour.
pub proof fn lemma_first_gives_color(pos: (u8, u8), pieces: Seq<Piece>, i: int)
    requires
        first_on(pos, pieces, i),
    ensures
        color_at(pos, pieces) == Some(pieces[i].color),
{
    let k = choose|k: int| first_on(pos, pieces, k);
    assert(first_on(pos, pieces, k));
    assert(k == i);
}

/// On a board without collisions, the square of any piece has that piece's
/// colour.
pub proof fn lemma_color_of_placed_piece(pieces: Seq<Piece>, i: int)
    requires
        collision_free(pieces),
        0 <= i < pieces.len(),
    ensures
        color_at(pieces[i].square(), pieces) == Some(pieces[i].color),
{
    let pos = pieces[i].square();
    assert forall|j: int| 0 <= j < i implies !(#[trigger] pieces[j]).stands_on(pos) by {
        assert(!pieces[j].stands_on(pieces[i].square()));
    }
    assert(first_on(pos, pieces, i));
    lemma_first_gives_color(pos, pieces, i);
}

/// Putting one more piece on the board, anywhere in the list, leaves the
/// colour of every square but the one it stands on as it was.
pub proof fn lemma_bystander_keeps_color(
    pos: (u8, u8),
    pieces: Seq<Piece>,
    at: int,
    extra: Piece,
)
    requires
        0 <= at <= pieces.len(),
        !extra.stands_on(pos),
    ensures
        color_at(pos, pieces.insert(at, extra)) == color_at(pos, pieces),
{
    let more = pieces.insert(at, extra);
    pieces.insert_ensures(at, extra);
    assert forall|j: int| 0 <= j < more.len() && j != at implies #[trigger] more[j] == pieces[if j
        < at {
        j
    } else {
        j - 1
    }] by {
        if j > at {
            assert(more[(j - 1) + 1] == pieces[j - 1]);
        }
    }
    if occupied(pos, pieces) {
        let i = choose|i: int| 0 <= i < pieces.len() && (#[trigger] pieces[i]).stands_on(pos);
        lemma_occupied_has_first(pos, pieces, i);
        let k = choose|k: int| 0 <= k <= i && first_on(pos, pieces, k);
        let moved = if k < at {
            k
        } else {
            k + 1
        };
        assert(more[moved] == pieces[k]);
        assert(first_on(pos, more, moved));
        lemma_first_gives_color(pos, more, moved);
        lemma_first_gives_color(pos, pieces, k);
    } else {
        assert forall|j: int| 0 <= j < more.len() implies !(#[trigger] more[j]).stands_on(pos) by {
            if j != at {
                let back = if j < at {
                    j
                } else {
                    j - 1
                };
                assert(more[j] == pieces[back]);
                assert(!pieces[back].stands_on(pos));
            }
        }
    }
}

/// The side of the piece on `pos`, or `None` where no piece of `pieces`
/// stands on it.
///
/// Where several pieces stand on `pos`, the first in the list decides.
pub fn color_of_square(pos: (u8, u8), pieces: &Vec<Piece>) -> (color: Option<PieceColor>)
    ensures
        color == color_at(pos, pieces@),
        color is None <==> !occupied(pos, pieces@),
        forall|i: int| first_on(pos, pieces@, i) ==> color == Some(pieces@[i].color),
        collision_free(pieces@) ==> forall|i: int|
            0 <= i < pieces@.len() && (#[trigger] pieces@[i]).stands_on(pos) ==> color == Some(
                pieces@[i].color,
            ),
{
    let n: usize = pieces.len();
    let mut i: usize = 0;
    while i < n
        invariant
            n == pieces@.len(),
            i <= n,
            forall|j: int| 0 <= j < i ==> !(#[trigger] pieces@[j]).stands_on(pos),
        decreases n - i,
    {
        let piece: Piece = pieces[i];
        if piece.x == pos.0 && piece.y == pos.1 {
            proof {
                assert(first_on(pos, pieces@, i as int));
                lemma_first_gives_color(pos, pieces@, i as int);
                assert forall|k: int| first_on(pos, pieces@, k) implies Some(piece.color) == Some(
                    pieces@[k].color,
                ) by {
                    lemma_first_gives_color(pos, pieces@, k);
                }
                if collision_free(pieces@) {
                    assert forall|k: int|
                        0 <= k < pieces@.len() && (#[trigger] pieces@[k]).stands_on(
                            pos,
                        ) implies Some(piece.color) == Some(pieces@[k].color) by {
                        if k != i {
                            assert(pieces@[k].stands_on(pieces@[i as int].square()));
                            assert(pieces@[i as int].stands_on(pieces@[k].square()));
                        }
                    }
                }
            }
            return Some(piece.color);
        }
        i += 1;
    }
    None
}

} // verus!

//! Whether the squares between two squares are free.
//!
//! A path runs along a file, along a rank or along a diagonal. The squares of
//! a path are those strictly between its two ends. Two squares that lie on no
//! common line have no squares between them, so the path between them is
//! clear whatever the board holds.

use vstd::prelude::*;

use crate::occupancy::{color_of_square, occupied};
use crate::piece::Piece;

verus! {

/// The distance between two numbers.
pub open spec fn gap(a: int, b: int) -> int {
    if a <= b {
        b - a
    } else {
        a - b
    }
}

/// `m` lies strictly between `a` and `b`, whichever of the two is the larger.
pub open spec fn strictly_between(a: int, m: int, b: int) -> bool {
    a < m < b || b < m < a
}

/// The two squares lie on one file, on one rank or on one diagonal.
pub open spec fn aligned(begin: (u8, u8), end: (u8, u8)) -> bool {
    ||| begin.0 == end.0
    ||| begin.1 == end.1
    ||| gap(begin.0 as int, end.0 as int) == gap(begin.1 as int, end.1 as int)
}

/// `sq` is one of the squares strictly between `begin` and `end` on the
/// line through both. No square is, where the two lie on no common line.
pub open spec fn passes_over(begin: (u8, u8), end: (u8, u8), sq: (u8, u8)) -> bool {
    if begin.0 == end.0 {
        sq.0 == begin.0 && strictly_between(begin.1 as int, sq.1 as int, end.1 as int)
    } else if begin.1 == end.1 {
        sq.1 == begin.1 && strictly_between(begin.0 as int, sq.0 as int, end.0 as int)
    } else if gap(begin.0 as int, end.0 as int) == gap(begin.1 as int, end.1 as int) {
        &&& strictly_between(begin.0 as int, sq.0 as int, end.0 as int)
        &&& strictly_between(begin.1 as int, sq.1 as int, end.1 as int)
        &&& gap(begin.0 as int, sq.0 as int) == gap(begin.1 as int, sq.1 as int)
    } else {
        false
    }
}

/// No piece of `pieces` stands strictly between `begin` and `end`.
pub open spec fn path_is_clear(begin: (u8, u8), end: (u8, u8), pieces: Seq<Piece>) -> bool {
    forall|i: int|
        0 <= i < pieces.len() ==> !passes_over(begin, end, (#[trigger] pieces[i]).square())
}

/// A path is clear exactly when every square it passes over is empty.
pub proof fn lemma_clear_path_has_empty_squares(
    begin: (u8, u8),
    end: (u8, u8),
    pieces: Seq<Piece>,
)
    ensures
        path_is_clear(begin, end, pieces) <==> forall|sq: (u8, u8)|
            passes_over(begin, end, sq) ==> !#[trigger] occupied(sq, pieces),
{
    if path_is_clear(begin, end, pieces) {
        assert forall|sq: (u8, u8)| passes_over(begin, end, sq) implies !#[trigger] occupied(
            sq,
            pieces,
        ) by {
            if occupied(sq, pieces) {
                let i = choose|i: int| 0 <= i < pieces.len() && (#[trigger] pieces[i]).stands_on(sq);
                assert(pieces[i].square() == sq);
            }
        }
    }
    if forall|sq: (u8, u8)| passes_over(begin, end, sq) ==> !#[trigger] occupied(sq, pieces) {
        assert forall|i: int| 0 <= i < pieces.len() implies !passes_over(
            begin,
            end,
            (#[trigger] pieces[i]).square(),
        ) by {
            let sq = pieces[i].square();
            assert(pieces[i].stands_on(sq));
            assert(occupied(sq, pieces));
        }
    }
}

/// The distance between two coordinates.
pub(crate) fn distance(a: u8, b: u8) -> (d: u8)
    ensures
        d == gap(a as int, b as int),
{
    if a <= b {
        b - a
    } else {
        a - b
    }
}

/// Whether every square strictly between `begin` and `end` is empty.
///
/// The squares between are taken along the file, the rank or the diagonal
/// that holds both ends. Two neighbouring squares have none between them.
/// Neither have two squares on no common line: for them the answer is `true`,
/// and it is the caller who knows whether the move is a straight one.
pub fn is_path_empty(begin: (u8, u8), end: (u8, u8), pieces: &Vec<Piece>) -> (clear: bool)
    ensures
        clear == path_is_clear(begin, end, pieces@),
        gap(begin.0 as int, end.0 as int) <= 1 && gap(begin.1 as int, end.1 as int) <= 1
            ==> clear,
        !aligned(begin, end) ==> clear,
{
    let n: usize = pieces.len();
    if begin.0 == end.0 {
        // Along the file.
        let mut k: usize = 0;
        while k < n
            invariant
                n == pieces@.len(),
                k <= n,
                begin.0 == end.0,
                forall|j: int|
                    0 <= j < k ==> !passes_over(begin, end, (#[trigger] pieces@[j]).square()),
            decreases n - k,
        {
            let piece: Piece = pieces[k];
            if piece.x == begin.0 && ((piece.y > begin.1 && piece.y < end.1) || (piece.y > end.1
                && piece.y < begin.1)) {
                assert(passes_over(begin, end, pieces@[k as int].square()));
                return false;
            }
            k += 1;
        }
        true
    } else if begin.1 == end.1 {
        // Along the rank.
        let mut k: usize = 0;
        while k < n
            invariant
                n == pieces@.len(),
                k <= n,
                begin.0 != end.0,
                begin.1 == end.1,
                forall|j: int|
                    0 <= j < k ==> !passes_over(begin, end, (#[trigger] pieces@[j]).square()),
            decreases n - k,
        {
            let piece: Piece = pieces[k];
            if piece.y == begin.1 && ((piece.x > begin.0 && piece.x < end.0) || (piece.x > end.0
                && piece.x < begin.0)) {
                assert(passes_over(begin, end, pieces@[k as int].square()));
                return false;
            }
            k += 1;
        }
        true
    } else {
        let x_diff: u8 = distance(begin.0, end.0);
        let y_diff: u8 = distance(begin.1, end.1);
        if x_diff == y_diff {
            // Along the diagonal, one square at a time.
            let mut i: u8 = 1;
            while i < x_diff
                invariant
                    1 <= i <= x_diff,
                    begin.0 != end.0,
                    begin.1 != end.1,
                    x_diff == gap(begin.0 as int, end.0 as int),
                    x_diff == gap(begin.1 as int, end.1 as int),
                    forall|j: int|
                        0 <= j < pieces@.len() ==> !(passes_over(
                            begin,
                            end,
                            (#[trigger] pieces@[j]).square(),
                        ) && gap(begin.0 as int, pieces@[j].x as int) < i),
                decreases x_diff - i,
            {
                let pos: (u8, u8) = if begin.0 < end.0 && begin.1 < end.1 {
                    (begin.0 + i, begin.1 + i)
                } else if begin.0 < end.0 && begin.1 > end.1 {
                    (begin.0 + i, begin.1 - i)
                } else if begin.0 > end.0 && begin.1 < end.1 {
                    (begin.0 - i, begin.1 + i)
                } else {
                    (begin.0 - i, begin.1 - i)
                };
                if color_of_square(pos, pieces).is_some() {
                    proof {
                        let j = choose|j: int|
                            0 <= j < pieces@.len() && (#[trigger] pieces@[j]).stands_on(pos);
                        assert(passes_over(begin, end, pieces@[j].square()));
                    }
                    return false;
                }
                proof {
                    assert forall|j: int| 0 <= j < pieces@.len() implies !(passes_over(
                        begin,
                        end,
                        (#[trigger] pieces@[j]).square(),
                    ) && gap(begin.0 as int, pieces@[j].x as int) < i + 1) by {
                        if passes_over(begin, end, pieces@[j].square()) && gap(
                            begin.0 as int,
                            pieces@[j].x as int,
                        ) == i {
                            assert(pieces@[j].stands_on(pos));
                        }
                    }
                }
                i += 1;
            }
            true
        } else {
            true
        }
    }
}

} // verus!

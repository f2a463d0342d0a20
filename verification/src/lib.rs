//! Move legality for chess pieces on an 8x8 board.
//!
//! A board is a plain list of [`Piece`] values. Given such a list, a piece and
//! a destination square, [`Piece::is_move_valid`] decides whether the piece
//! may go there under the basic movement rules: how each kind of piece moves,
//! that sliding pieces cannot pass over others, and that no piece lands on a
//! square held by its own side. Check, castling, en passant, promotion and
//! turn order are not part of these rules.
//!
//! A square is a pair `(file, rank)`; on the board both lie in `0..=7`.
//! Nothing here rejects a square off the board: every function is total, and
//! distances are the distances between the numbers given.

pub mod color;
pub mod moves;
pub mod occupancy;
pub mod path;
pub mod piece;
pub mod setup;

pub use color::PieceColor;
pub use occupancy::color_of_square;
pub use path::is_path_empty;
pub use piece::{Piece, PieceType};
pub use setup::starting_pieces;

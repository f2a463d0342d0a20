use chess_moves::{Piece, PieceColor, PieceType};

fn piece(color: PieceColor, piece_type: PieceType, x: u8, y: u8) -> Piece {
    Piece { color, piece_type, x, y }
}

#[test]
fn white_pawn_double_step_on_empty_board() {
    let pawn = piece(PieceColor::White, PieceType::Pawn, 1, 4);
    assert!(pawn.is_move_valid((3, 4), vec![pawn]));
    assert!(pawn.is_move_valid((3, 4), vec![]));
}

#[test]
fn white_pawn_cannot_go_two_ahead_and_sideways() {
    let pawn = piece(PieceColor::White, PieceType::Pawn, 1, 4);
    assert!(!pawn.is_move_valid((3, 5), vec![pawn]));
    assert!(!pawn.is_move_valid((3, 3), vec![pawn]));
}

#[test]
fn white_pawn_captures_diagonally() {
    let pawn = piece(PieceColor::White, PieceType::Pawn, 1, 4);
    let target = piece(PieceColor::Black, PieceType::Pawn, 2, 5);
    assert!(pawn.is_move_valid((2, 5), vec![pawn, target]));
}

#[test]
fn white_pawn_double_step_blocked_by_piece_ahead() {
    let pawn = piece(PieceColor::White, PieceType::Pawn, 1, 4);
    let blocker = piece(PieceColor::Black, PieceType::Pawn, 2, 4);
    assert!(!pawn.is_move_valid((3, 4), vec![pawn, blocker]));
}

#[test]
fn white_pawn_single_step_blocked_by_piece_ahead() {
    let pawn = piece(PieceColor::White, PieceType::Pawn, 1, 4);
    let blocker = piece(PieceColor::Black, PieceType::Pawn, 2, 4);
    assert!(!pawn.is_move_valid((2, 4), vec![pawn, blocker]));
}

#[test]
fn rook_cannot_pass_over_own_pawn() {
    let rook = piece(PieceColor::White, PieceType::Rook, 0, 0);
    let pawn = piece(PieceColor::White, PieceType::Pawn, 0, 4);
    assert!(!rook.is_move_valid((0, 7), vec![rook, pawn]));
}

#[test]
fn rook_may_stop_short_of_blocker() {
    let rook = piece(PieceColor::White, PieceType::Rook, 0, 0);
    let pawn = piece(PieceColor::White, PieceType::Pawn, 0, 4);
    assert!(rook.is_move_valid((0, 3), vec![rook, pawn]));
}

#[test]
fn bishop_slides_along_clear_diagonal() {
    let bishop = piece(PieceColor::White, PieceType::Bishop, 2, 2);
    assert!(bishop.is_move_valid((5, 5), vec![bishop]));
}

#[test]
fn bishop_blocked_on_diagonal() {
    let bishop = piece(PieceColor::White, PieceType::Bishop, 2, 2);
    let white_blocker = piece(PieceColor::White, PieceType::Pawn, 3, 3);
    let black_blocker = piece(PieceColor::Black, PieceType::Pawn, 3, 3);
    assert!(!bishop.is_move_valid((5, 5), vec![bishop, white_blocker]));
    assert!(!bishop.is_move_valid((5, 5), vec![bishop, black_blocker]));
}

#[test]
fn king_steps_one_square_diagonally() {
    let king = piece(PieceColor::White, PieceType::King, 4, 4);
    assert!(king.is_move_valid((5, 5), vec![king]));
}

#[test]
fn king_cannot_go_two_squares() {
    let king = piece(PieceColor::White, PieceType::King, 4, 4);
    assert!(!king.is_move_valid((6, 6), vec![king]));
}

use chess_moves::{is_path_empty, starting_pieces, Piece, PieceColor, PieceType};

fn pawn_at(x: u8, y: u8) -> Piece {
    Piece { color: PieceColor::White, piece_type: PieceType::Pawn, x, y }
}

fn full_board() -> Vec<Piece> {
    let mut pieces: Vec<Piece> = Vec::new();
    let mut x: u8 = 0;
    while x < 8 {
        let mut y: u8 = 0;
        while y < 8 {
            pieces.push(pawn_at(x, y));
            y += 1;
        }
        x += 1;
    }
    pieces
}

#[test]
fn path_between_neighbours_is_always_clear() {
    let pieces = full_board();
    let steps: [(i16, i16); 8] =
        [(-1, -1), (-1, 0), (-1, 1), (0, -1), (0, 1), (1, -1), (1, 0), (1, 1)];
    let mut x: i16 = 0;
    while x < 8 {
        let mut y: i16 = 0;
        while y < 8 {
            for (dx, dy) in steps {
                let nx: i16 = x + dx;
                let ny: i16 = y + dy;
                if (0..8).contains(&nx) && (0..8).contains(&ny) {
                    assert!(is_path_empty((x as u8, y as u8), (nx as u8, ny as u8), &pieces));
                }
            }
            y += 1;
        }
        x += 1;
    }
}

#[test]
fn path_from_a_square_to_itself_is_clear() {
    let pieces = full_board();
    assert!(is_path_empty((3, 3), (3, 3), &pieces));
    assert!(is_path_empty((0, 7), (0, 7), &pieces));
}

#[test]
fn path_along_a_file() {
    let pieces = vec![pawn_at(0, 4)];
    assert!(!is_path_empty((0, 0), (0, 7), &pieces));
    assert!(!is_path_empty((0, 7), (0, 0), &pieces));
    assert!(!is_path_empty((0, 3), (0, 5), &pieces));
    assert!(is_path_empty((0, 0), (0, 4), &pieces));
    assert!(is_path_empty((0, 4), (0, 7), &pieces));
    assert!(is_path_empty((0, 0), (0, 3), &pieces));
    assert!(is_path_empty((1, 0), (1, 7), &pieces));
}

#[test]
fn path_along_a_rank() {
    let pieces = vec![pawn_at(4, 2)];
    assert!(!is_path_empty((0, 2), (7, 2), &pieces));
    assert!(!is_path_empty((7, 2), (0, 2), &pieces));
    assert!(is_path_empty((0, 2), (4, 2), &pieces));
    assert!(is_path_empty((4, 2), (7, 2), &pieces));
    assert!(is_path_empty((5, 2), (7, 2), &pieces));
    assert!(is_path_empty((0, 3), (7, 3), &pieces));
}

#[test]
fn path_along_each_diagonal_direction() {
    let pieces = vec![pawn_at(3, 3)];
    assert!(!is_path_empty((1, 1), (5, 5), &pieces));
    assert!(!is_path_empty((5, 5), (1, 1), &pieces));
    assert!(!is_path_empty((1, 5), (5, 1), &pieces));
    assert!(!is_path_empty((5, 1), (1, 5), &pieces));
    assert!(is_path_empty((1, 1), (3, 3), &pieces));
    assert!(is_path_empty((3, 3), (6, 6), &pieces));
    assert!(is_path_empty((0, 1), (6, 7), &pieces));
    assert!(is_path_empty((2, 5), (4, 3), &pieces));
}

#[test]
fn diagonal_is_checked_up_to_the_last_square_before_the_end() {
    assert!(!is_path_empty((0, 0), (7, 7), &vec![pawn_at(6, 6)]));
    assert!(!is_path_empty((0, 0), (7, 7), &vec![pawn_at(1, 1)]));
    assert!(!is_path_empty((7, 0), (0, 7), &vec![pawn_at(1, 6)]));
    assert!(!is_path_empty((0, 7), (7, 0), &vec![pawn_at(1, 6)]));
}

#[test]
fn pieces_on_the_ends_do_not_block() {
    let pieces = vec![pawn_at(0, 0), pawn_at(0, 7), pawn_at(7, 7), pawn_at(7, 0)];
    assert!(is_path_empty((0, 0), (0, 7), &pieces));
    assert!(is_path_empty((0, 0), (7, 7), &pieces));
    assert!(is_path_empty((0, 0), (7, 0), &pieces));
    assert!(is_path_empty((0, 7), (7, 0), &pieces));
}

#[test]
fn squares_on_no_common_line_have_a_clear_path() {
    let pieces = full_board();
    assert!(is_path_empty((0, 0), (1, 2), &pieces));
    assert!(is_path_empty((0, 0), (2, 5), &pieces));
    assert!(is_path_empty((7, 3), (0, 1), &pieces));
}

#[test]
fn paths_in_the_starting_position() {
    let pieces = starting_pieces();
    assert!(is_path_empty((1, 3), (6, 3), &pieces));
    assert!(!is_path_empty((0, 3), (7, 3), &pieces));
    assert!(!is_path_empty((0, 0), (0, 7), &pieces));
    assert!(!is_path_empty((0, 2), (2, 4), &pieces));
    assert!(is_path_empty((1, 3), (5, 7), &pieces));
}

use chess_moves::PieceColor;

#[test]
fn opposite_swaps_the_sides() {
    assert_eq!(PieceColor::White.opposite(), PieceColor::Black);
    assert_eq!(PieceColor::Black.opposite(), PieceColor::White);
}

#[test]
fn opposite_twice_is_identity() {
    assert_eq!(PieceColor::White.opposite().opposite(), PieceColor::White);
    assert_eq!(PieceColor::Black.opposite().opposite(), PieceColor::Black);
}

#[test]
fn names_of_the_sides() {
    assert_eq!(PieceColor::White.name(), "White");
    assert_eq!(PieceColor::Black.name(), "Black");
}

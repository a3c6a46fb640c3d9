use rchess::greet;
use rchess::pieces::{
    Bishop, BishopSquareColor, Color, King, Knight, Pawn, Piece, PieceType, Queen, Rook, Square,
};
use rchess::snapshot;

fn sq(file: u8, rank: u8) -> Square {
    Square::new(file, rank).unwrap()
}

#[test]
fn greet_returns_expected() {
    assert_eq!(greet(), "Hello, world!");
}

#[test]
fn test_square_creation() {
    let sq = Square::new(4, 3).unwrap();
    assert_eq!(sq.file, 4);
    assert_eq!(sq.rank, 3);
    assert_eq!(sq.to_algebraic(), "e4");
}

#[test]
fn test_color_opposite() {
    assert_eq!(Color::White.opposite(), Color::Black);
    assert_eq!(Color::Black.opposite(), Color::White);
}

#[test]
fn test_king_movement() {
    let king = King::new(Color::White, Square::new(4, 4).unwrap());
    assert!(king.can_move_to(Square::new(4, 5).unwrap()));
    assert!(king.can_move_to(Square::new(5, 5).unwrap()));
    assert!(!king.can_move_to(Square::new(4, 6).unwrap()));
}

#[test]
fn test_knight_movement() {
    let knight = Knight::new(Color::White, Square::new(4, 4).unwrap());
    assert!(knight.can_move_to(Square::new(5, 6).unwrap()));
    assert!(knight.can_move_to(Square::new(6, 5).unwrap()));
    assert!(!knight.can_move_to(Square::new(5, 5).unwrap()));
}

#[test]
fn test_pawn_initial_move() {
    let pawn = Pawn::new(Color::White, Square::new(4, 1).unwrap());
    assert!(pawn.can_move_to(Square::new(4, 2).unwrap()));
    assert!(pawn.can_move_to(Square::new(4, 3).unwrap()));
}

#[test]
fn test_pawn_after_first_move() {
    let mut pawn = Pawn::new(Color::White, Square::new(4, 1).unwrap());
    pawn.mark_moved();
    assert!(pawn.can_move_to(Square::new(4, 2).unwrap()));
    assert!(!pawn.can_move_to(Square::new(4, 3).unwrap()));
}

#[test]
fn test_bishop_square_color() {
    let bishop = Bishop::new(
        Color::White,
        Square::new(2, 0).unwrap(),
        BishopSquareColor::Light,
    );
    assert_eq!(bishop.square_color(), BishopSquareColor::Light);
}

#[test]
fn test_square_new_out_of_range() {
    assert!(Square::new(8, 0).is_none());
    assert!(Square::new(0, 8).is_none());
    assert!(Square::new(255, 255).is_none());
    assert!(Square::new(7, 7).is_some());
}

#[test]
fn test_square_algebraic_corners() {
    assert_eq!(sq(0, 0).to_algebraic(), "a1");
    assert_eq!(sq(7, 7).to_algebraic(), "h8");
    assert_eq!(sq(0, 7).to_algebraic(), "a8");
    assert_eq!(sq(7, 0).to_algebraic(), "h1");
}

#[test]
fn test_square_algebraic_all_distinct() {
    let mut names: Vec<String> = Vec::new();
    for file in 0..8u8 {
        for rank in 0..8u8 {
            names.push(sq(file, rank).to_algebraic());
        }
    }
    for i in 0..names.len() {
        for j in 0..i {
            assert_ne!(names[i], names[j]);
        }
    }
}

#[test]
fn test_square_proto_round_trip() {
    for file in 0..8u8 {
        for rank in 0..8u8 {
            let original = sq(file, rank);
            let wire = original.to_proto();
            assert_eq!(wire.file, file as i32 + 1);
            assert_eq!(wire.rank, rank as i32 + 1);
            assert_eq!(wire.index, rank as i32 * 8 + file as i32);
            assert_eq!(wire.algebraic, original.to_algebraic());
            let back = Square::from_proto(&wire).unwrap();
            assert_eq!(back, original);
        }
    }
}

#[test]
fn test_square_from_proto_saturates_at_zero() {
    let wire = snapshot::Position {
        file: 0,
        rank: 0,
        index: 0,
        algebraic: String::new(),
    };
    assert_eq!(Square::from_proto(&wire), Some(sq(0, 0)));
}

#[test]
fn test_square_from_proto_rejects_out_of_range() {
    let too_big = snapshot::Position {
        file: 9,
        rank: 1,
        index: 0,
        algebraic: String::new(),
    };
    assert!(Square::from_proto(&too_big).is_none());
    let negative = snapshot::Position {
        file: -1,
        rank: 1,
        index: 0,
        algebraic: String::new(),
    };
    assert!(Square::from_proto(&negative).is_none());
}

#[test]
fn test_color_from_proto_codes() {
    assert_eq!(Color::from_proto(1), Color::White);
    assert_eq!(Color::from_proto(2), Color::Black);
    assert_eq!(Color::from_proto(0), Color::White);
    assert_eq!(Color::from_proto(99), Color::White);
    assert_eq!(Color::White.to_proto(), 1);
    assert_eq!(Color::Black.to_proto(), 2);
}

#[test]
fn test_rook_and_king_moved_flags() {
    let mut rook = Rook::new(Color::Black, sq(0, 7));
    assert!(!rook.has_moved());
    rook.mark_moved();
    assert!(rook.has_moved());
    assert_eq!(rook.position(), sq(0, 7));
    assert_eq!(rook.color(), Color::Black);

    let mut king = King::new(Color::White, sq(4, 0));
    assert!(!king.has_moved());
    king.mark_moved();
    assert!(king.has_moved());
}

#[test]
fn test_pawn_promotion_codes() {
    let mut pawn = Pawn::new(Color::White, sq(0, 6));
    assert_eq!(pawn.promoted_to(), None);
    pawn.set_promoted_to(PieceType::Queen);
    assert_eq!(pawn.promoted_to(), Some(PieceType::Queen));
    pawn.set_promoted_to(PieceType::Knight);
    assert_eq!(pawn.promoted_to(), Some(PieceType::Knight));
}

#[test]
fn test_pawn_en_passant_flag() {
    let mut pawn = Pawn::new(Color::Black, sq(3, 4));
    assert!(!pawn.en_passant_vulnerable());
    pawn.set_en_passant_vulnerable(true);
    assert!(pawn.en_passant_vulnerable());
    pawn.set_en_passant_vulnerable(false);
    assert!(!pawn.en_passant_vulnerable());
}

#[test]
fn test_display_names() {
    assert_eq!(
        King::new(Color::White, sq(4, 0)).display_name(),
        "White King"
    );
    assert_eq!(
        Queen::new(Color::Black, sq(3, 7)).display_name(),
        "Black Queen"
    );
    assert_eq!(
        Knight::new(Color::White, sq(1, 0)).display_name(),
        "White Knight"
    );
    assert_eq!(
        Pawn::new(Color::Black, sq(0, 6)).display_name(),
        "Black Pawn"
    );
}

#[test]
fn test_piece_types() {
    assert_eq!(King::new(Color::White, sq(0, 0)).piece_type(), PieceType::King);
    assert_eq!(Queen::new(Color::White, sq(0, 0)).piece_type(), PieceType::Queen);
    assert_eq!(Rook::new(Color::White, sq(0, 0)).piece_type(), PieceType::Rook);
    assert_eq!(
        Bishop::new(Color::White, sq(0, 0), BishopSquareColor::Dark).piece_type(),
        PieceType::Bishop
    );
    assert_eq!(Knight::new(Color::White, sq(0, 0)).piece_type(), PieceType::Knight);
    assert_eq!(Pawn::new(Color::White, sq(0, 0)).piece_type(), PieceType::Pawn);
}

#[test]
fn test_king_from_proto_missing_position_falls_back_to_corner() {
    let king = King::from_proto(snapshot::King {
        color: 1,
        position: None,
        has_moved: false,
    });
    assert_eq!(king.position(), sq(0, 0));
    assert_eq!(king.color(), Color::White);
}

#[test]
fn test_king_proto_round_trip() {
    let wire = snapshot::King {
        color: 2,
        position: Some(snapshot::Position {
            file: 5,
            rank: 3,
            index: 20,
            algebraic: String::from("e3"),
        }),
        has_moved: true,
    };
    let king = King::from_proto(wire);
    let back = king.to_proto();
    assert_eq!(back.color, 2);
    assert!(back.has_moved);
    let pos = back.position.unwrap();
    assert_eq!(pos.file, 5);
    assert_eq!(pos.rank, 3);
    assert_eq!(pos.index, 20);
    assert_eq!(pos.algebraic, "e3");
    assert_eq!(king.position(), sq(4, 2));
}

use rchess::board::Board;
use rchess::pieces::{Color, Square};
use rchess::snapshot;

fn sq(file: u8, rank: u8) -> Square {
    Square::new(file, rank).unwrap()
}

fn wire_position(file: u8, rank: u8) -> snapshot::Position {
    snapshot::Position {
        file: file as i32 + 1,
        rank: rank as i32 + 1,
        index: rank as i32 * 8 + file as i32,
        algebraic: String::new(),
    }
}

fn wire_pawn(color: i32, file: u8, rank: u8) -> snapshot::Piece {
    snapshot::Piece {
        kind: Some(snapshot::PieceKind::Pawn(snapshot::Pawn {
            color,
            position: Some(wire_position(file, rank)),
            has_moved: false,
            promoted_to: 0,
            en_passant_vulnerable: false,
        })),
        captured: false,
    }
}

fn game_with_pieces(pieces: Vec<snapshot::Piece>) -> snapshot::GameState {
    snapshot::GameState {
        board: Some(snapshot::Board { pieces }),
        current_player: 1,
        ..Default::default()
    }
}

#[test]
fn test_board_creation_empty() {
    let game_state = snapshot::GameState {
        board: Some(snapshot::Board::default()),
        current_player: 1,
        ..Default::default()
    };
    let board = Board::from_proto(game_state);
    assert_eq!(board.all_pieces().len(), 0);
    assert_eq!(board.pieces_of_color(Color::White).len(), 0);
    assert_eq!(board.pieces_of_color(Color::Black).len(), 0);
}

#[test]
fn test_piece_at_empty_square() {
    let game_state = snapshot::GameState {
        board: Some(snapshot::Board::default()),
        ..Default::default()
    };
    let board = Board::from_proto(game_state);
    let sq = Square::new(4, 4).unwrap();
    assert!(board.piece_at(sq).is_none());
}

#[test]
fn test_empty_or_capturable() {
    let game_state = snapshot::GameState {
        board: Some(snapshot::Board::default()),
        ..Default::default()
    };
    let board = Board::from_proto(game_state);
    let sq = Square::new(4, 4).unwrap();
    assert!(board.is_empty_or_capturable(sq, Color::White));
    assert!(board.is_empty_or_capturable(sq, Color::Black));
}

#[test]
fn test_current_player() {
    let game_state = snapshot::GameState {
        board: Some(snapshot::Board::default()),
        current_player: 1,
        ..Default::default()
    };
    let board = Board::from_proto(game_state);
    assert_eq!(board.current_player(), Color::White);
}

#[test]
fn test_empty_board_round_trip() {
    let game_state = snapshot::GameState {
        board: Some(snapshot::Board::default()),
        current_player: 1,
        ..Default::default()
    };
    let board = Board::from_proto(game_state);
    assert_eq!(board.pieces_of_color(Color::White).len(), 0);
    assert_eq!(board.pieces_of_color(Color::Black).len(), 0);
    assert_eq!(board.current_player(), Color::White);
    let back = board.to_proto();
    assert_eq!(back.current_player, 1);
    assert_eq!(back.board.unwrap().pieces.len(), 0);
    assert!(back.en_passant_target.is_none());
    assert_eq!(back.halfmove_clock, 0);
    assert_eq!(back.fullmove_number, 0);
}

#[test]
fn test_piece_at_finds_piece() {
    let board = Board::from_proto(game_with_pieces(vec![wire_pawn(1, 2, 2)]));
    let found = board.piece_at(sq(2, 2));
    assert!(found.is_some());
    match &found.unwrap().kind {
        Some(snapshot::PieceKind::Pawn(p)) => assert_eq!(p.color, 1),
        _ => panic!("expected a pawn"),
    }
    assert!(board.piece_at(sq(2, 3)).is_none());
}

#[test]
fn test_empty_or_capturable_with_occupants() {
    let board = Board::from_proto(game_with_pieces(vec![wire_pawn(1, 2, 2)]));
    assert!(!board.is_empty_or_capturable(sq(2, 2), Color::White));
    assert!(board.is_empty_or_capturable(sq(2, 2), Color::Black));
    assert!(board.is_empty_or_capturable(sq(5, 5), Color::White));
    assert!(board.is_empty_or_capturable(sq(5, 5), Color::Black));
}

#[test]
fn test_color_partitions() {
    let board = Board::from_proto(game_with_pieces(vec![
        wire_pawn(1, 0, 1),
        wire_pawn(2, 0, 6),
        wire_pawn(1, 1, 1),
    ]));
    assert_eq!(board.pieces_of_color(Color::White).len(), 2);
    assert_eq!(board.pieces_of_color(Color::Black).len(), 1);
    assert_eq!(board.all_pieces().len(), 3);
}

#[test]
fn test_captured_piece_excluded() {
    let mut captured = wire_pawn(1, 3, 3);
    captured.captured = true;
    let board = Board::from_proto(game_with_pieces(vec![captured, wire_pawn(2, 4, 4)]));
    assert!(board.piece_at(sq(3, 3)).is_none());
    assert_eq!(board.pieces_of_color(Color::White).len(), 0);
    assert_eq!(board.pieces_of_color(Color::Black).len(), 1);
    assert_eq!(board.all_pieces().len(), 1);
}

#[test]
fn test_piece_without_kind_dropped() {
    let blank = snapshot::Piece {
        kind: None,
        captured: false,
    };
    let board = Board::from_proto(game_with_pieces(vec![blank]));
    assert_eq!(board.all_pieces().len(), 0);
    assert_eq!(board.pieces_of_color(Color::White).len(), 0);
}

#[test]
fn test_later_piece_shadows_earlier_on_same_square() {
    let board = Board::from_proto(game_with_pieces(vec![wire_pawn(1, 3, 3), wire_pawn(2, 3, 3)]));
    let found = board.piece_at(sq(3, 3)).unwrap();
    match &found.kind {
        Some(snapshot::PieceKind::Pawn(p)) => assert_eq!(p.color, 2),
        _ => panic!("expected a pawn"),
    }
    assert_eq!(board.pieces_of_color(Color::White).len(), 1);
    assert_eq!(board.pieces_of_color(Color::Black).len(), 1);
}

#[test]
fn test_game_flag_accessors() {
    let game_state = snapshot::GameState {
        board: Some(snapshot::Board::default()),
        current_player: 2,
        white_kingside_castling: true,
        black_queenside_castling: true,
        en_passant_target: Some(wire_position(4, 5)),
        halfmove_clock: 12,
        fullmove_number: 30,
        ..Default::default()
    };
    let board = Board::from_proto(game_state);
    assert_eq!(board.current_player(), Color::Black);
    assert!(board.white_kingside_castling());
    assert!(!board.white_queenside_castling());
    assert!(!board.black_kingside_castling());
    assert!(board.black_queenside_castling());
    assert_eq!(board.en_passant_target(), Some(sq(4, 5)));
    assert_eq!(board.halfmove_clock(), 12);
    assert_eq!(board.fullmove_number(), 30);
}

#[test]
fn test_board_without_piece_list() {
    let board = Board::from_proto(snapshot::GameState::default());
    assert_eq!(board.all_pieces().len(), 0);
    assert!(board.piece_at(sq(0, 0)).is_none());
    let back = board.to_proto();
    assert!(back.board.is_none());
}

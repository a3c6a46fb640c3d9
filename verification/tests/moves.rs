use rchess::board::Board;
use rchess::pieces::{Bishop, BishopSquareColor, Color, King, Knight, Pawn, Piece, Queen, Rook, Square};
use rchess::snapshot;

fn sq(file: u8, rank: u8) -> Square {
    Square::new(file, rank).unwrap()
}

fn wire_position(file: u8, rank: u8) -> snapshot::Position {
    snapshot::Position {
        file: file as i32 + 1,
        rank: rank as i32 + 1,
        index: rank as i32 * 8 + file as i32,
        algebraic: String::new(),
    }
}

fn wire_pawn(color: i32, file: u8, rank: u8) -> snapshot::Piece {
    snapshot::Piece {
        kind: Some(snapshot::PieceKind::Pawn(snapshot::Pawn {
            color,
            position: Some(wire_position(file, rank)),
            has_moved: false,
            promoted_to: 0,
            en_passant_vulnerable: false,
        })),
        captured: false,
    }
}

fn board_with(pieces: Vec<snapshot::Piece>) -> Board {
    Board::from_proto(snapshot::GameState {
        board: Some(snapshot::Board { pieces }),
        current_player: 1,
        ..Default::default()
    })
}

fn empty_board() -> Board {
    board_with(Vec::new())
}

#[test]
fn test_queen_moves_empty_board_center() {
    let board = empty_board();
    let queen = Queen::new(Color::White, sq(3, 3));
    let moves = queen.valid_moves(&board);
    // Unblocked rays reach the edge: 4+3+4+3 orthogonal and 4+3+3+3 diagonal.
    assert_eq!(moves.len(), 27);
}

#[test]
fn test_rook_moves_empty_board_corner() {
    let board = empty_board();
    let rook = Rook::new(Color::White, sq(0, 0));
    let moves = rook.valid_moves(&board);
    assert_eq!(moves.len(), 14);
    assert!(moves.contains(&sq(0, 7)));
    assert!(moves.contains(&sq(7, 0)));
}

#[test]
fn test_bishop_moves_empty_board_corner() {
    let board = empty_board();
    let bishop = Bishop::new(Color::White, sq(0, 0), BishopSquareColor::Dark);
    let moves = bishop.valid_moves(&board);
    assert_eq!(moves.len(), 7);
    assert!(moves.contains(&sq(7, 7)));
}

#[test]
fn test_ray_truncated_by_opponent_inclusive() {
    // A black pawn three squares up the file: the upward ray holds exactly
    // the three squares up to and including the capture square.
    let board = board_with(vec![wire_pawn(2, 3, 6)]);
    let rook = Rook::new(Color::White, sq(3, 3));
    let moves = rook.valid_moves(&board);
    assert!(moves.contains(&sq(3, 4)));
    assert!(moves.contains(&sq(3, 5)));
    assert!(moves.contains(&sq(3, 6)));
    assert!(!moves.contains(&sq(3, 7)));
    // 3 up (capture included) + 3 down + 4 right + 3 left.
    assert_eq!(moves.len(), 13);
}

#[test]
fn test_ray_truncated_by_own_piece_exclusive() {
    let board = board_with(vec![wire_pawn(1, 3, 6)]);
    let rook = Rook::new(Color::White, sq(3, 3));
    let moves = rook.valid_moves(&board);
    assert!(moves.contains(&sq(3, 4)));
    assert!(moves.contains(&sq(3, 5)));
    assert!(!moves.contains(&sq(3, 6)));
    // 2 up (blocker excluded) + 3 down + 4 right + 3 left.
    assert_eq!(moves.len(), 12);
}

#[test]
fn test_knight_moves_center() {
    let board = empty_board();
    let knight = Knight::new(Color::White, sq(4, 4));
    let moves = knight.valid_moves(&board);
    assert_eq!(moves.len(), 8);
    let expected = [
        sq(6, 5),
        sq(6, 3),
        sq(2, 5),
        sq(2, 3),
        sq(5, 6),
        sq(5, 2),
        sq(3, 6),
        sq(3, 2),
    ];
    for target in expected.iter() {
        assert!(moves.contains(target));
    }
}

#[test]
fn test_knight_moves_corner() {
    let board = empty_board();
    let knight = Knight::new(Color::Black, sq(0, 0));
    let moves = knight.valid_moves(&board);
    assert_eq!(moves.len(), 2);
    assert!(moves.contains(&sq(2, 1)));
    assert!(moves.contains(&sq(1, 2)));
}

#[test]
fn test_king_moves_center() {
    let board = empty_board();
    let king = King::new(Color::White, sq(4, 4));
    let moves = king.valid_moves(&board);
    assert_eq!(moves.len(), 8);
    for file in 3..6u8 {
        for rank in 3..6u8 {
            if !(file == 4 && rank == 4) {
                assert!(moves.contains(&sq(file, rank)));
            }
        }
    }
}

#[test]
fn test_king_moves_corner() {
    let board = empty_board();
    let king = King::new(Color::White, sq(0, 0));
    let moves = king.valid_moves(&board);
    assert_eq!(moves.len(), 3);
    assert!(moves.contains(&sq(0, 1)));
    assert!(moves.contains(&sq(1, 0)));
    assert!(moves.contains(&sq(1, 1)));
}

#[test]
fn test_king_does_not_capture_own_piece() {
    let board = board_with(vec![wire_pawn(1, 4, 5)]);
    let king = King::new(Color::White, sq(4, 4));
    let moves = king.valid_moves(&board);
    assert_eq!(moves.len(), 7);
    assert!(!moves.contains(&sq(4, 5)));
}

#[test]
fn test_pawn_forward_moves_unmoved_and_moved() {
    let board = empty_board();
    let mut pawn = Pawn::new(Color::White, sq(4, 1));
    let moves = pawn.valid_moves(&board);
    assert_eq!(moves.len(), 2);
    assert!(moves.contains(&sq(4, 2)));
    assert!(moves.contains(&sq(4, 3)));
    pawn.mark_moved();
    let moves_after = pawn.valid_moves(&board);
    assert_eq!(moves_after.len(), 1);
    assert!(moves_after.contains(&sq(4, 2)));
}

#[test]
fn test_black_pawn_moves_down() {
    let board = empty_board();
    let pawn = Pawn::new(Color::Black, sq(4, 6));
    let moves = pawn.valid_moves(&board);
    assert_eq!(moves.len(), 2);
    assert!(moves.contains(&sq(4, 5)));
    assert!(moves.contains(&sq(4, 4)));
}

#[test]
fn test_pawn_blocked_ahead() {
    let board = board_with(vec![wire_pawn(2, 4, 2)]);
    let pawn = Pawn::new(Color::White, sq(4, 1));
    let moves = pawn.valid_moves(&board);
    assert_eq!(moves.len(), 0);
}

#[test]
fn test_pawn_double_step_blocked_two_ahead() {
    let board = board_with(vec![wire_pawn(2, 4, 3)]);
    let pawn = Pawn::new(Color::White, sq(4, 1));
    let moves = pawn.valid_moves(&board);
    assert_eq!(moves.len(), 1);
    assert!(moves.contains(&sq(4, 2)));
}

#[test]
fn test_pawn_diagonal_captures() {
    // An opponent on one forward diagonal is capturable; an own piece on the
    // other is not.
    let board = board_with(vec![wire_pawn(2, 5, 4), wire_pawn(1, 3, 4)]);
    let mut pawn = Pawn::new(Color::White, sq(4, 3));
    pawn.mark_moved();
    let moves = pawn.valid_moves(&board);
    assert_eq!(moves.len(), 2);
    assert!(moves.contains(&sq(4, 4)));
    assert!(moves.contains(&sq(5, 4)));
    assert!(!moves.contains(&sq(3, 4)));
}

#[test]
fn test_pawn_en_passant_capture() {
    // The en-passant target square is a valid diagonal capture even though
    // it is unoccupied.
    let board = Board::from_proto(snapshot::GameState {
        board: Some(snapshot::Board {
            pieces: vec![wire_pawn(2, 5, 4)],
        }),
        current_player: 1,
        en_passant_target: Some(wire_position(5, 5)),
        ..Default::default()
    });
    let mut pawn = Pawn::new(Color::White, sq(4, 4));
    pawn.mark_moved();
    let moves = pawn.valid_moves(&board);
    assert!(moves.contains(&sq(4, 5)));
    assert!(moves.contains(&sq(5, 5)));
    assert_eq!(moves.len(), 2);
}

#[test]
fn test_pawn_no_en_passant_without_target() {
    let board = board_with(vec![wire_pawn(2, 5, 4)]);
    let mut pawn = Pawn::new(Color::White, sq(4, 4));
    pawn.mark_moved();
    let moves = pawn.valid_moves(&board);
    assert!(moves.contains(&sq(4, 5)));
    assert!(!moves.contains(&sq(5, 5)));
    assert_eq!(moves.len(), 1);
}

#[test]
fn test_pawn_at_last_rank_has_no_moves() {
    let board = empty_board();
    let pawn = Pawn::new(Color::White, sq(4, 7));
    let moves = pawn.valid_moves(&board);
    assert_eq!(moves.len(), 0);
}

#[test]
fn test_is_valid_move_matches_move_list() {
    let board = empty_board();
    let queen = Queen::new(Color::White, sq(3, 3));
    assert!(queen.is_valid_move(sq(3, 7), &board));
    assert!(queen.is_valid_move(sq(7, 7), &board));
    assert!(!queen.is_valid_move(sq(4, 5), &board));
    assert!(!queen.is_valid_move(sq(3, 3), &board));
}

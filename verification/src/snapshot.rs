//! The external wire representation of a game: a snapshot of piece placement
//! and game flags, consumed and produced by this crate but owned by the
//! serialization collaborator.
//!
//! Coordinates in this representation are one-indexed; the crate's own
//! [`crate::pieces::Square`] is zero-indexed.  All fields are plain data so
//! that every conversion into and out of the snapshot can be verified.

use vstd::prelude::*;

verus! {

/// A board coordinate as it appears on the wire: one-indexed file and rank,
/// with a derived 0-63 linear index and a derived algebraic string.
#[derive(Debug)]
pub struct Position {
    pub file: i32,
    pub rank: i32,
    pub index: i32,
    pub algebraic: String,
}

impl Clone for Position {
    fn clone(&self) -> (res: Self)
        ensures
            res == *self,
    {
        Position {
            file: self.file,
            rank: self.rank,
            index: self.index,
            algebraic: self.algebraic.clone(),
        }
    }
}

/// Wire state of a king: color code, position, and castling bookkeeping.
#[derive(Debug)]
pub struct King {
    pub color: i32,
    pub position: Option<Position>,
    pub has_moved: bool,
}

impl Clone for King {
    fn clone(&self) -> (res: Self)
        ensures
            res == *self,
    {
        King {
            color: self.color,
            position: clone_position(&self.position),
            has_moved: self.has_moved,
        }
    }
}

/// Wire state of a queen.
#[derive(Debug)]
pub struct Queen {
    pub color: i32,
    pub position: Option<Position>,
}

impl Clone for Queen {
    fn clone(&self) -> (res: Self)
        ensures
            res == *self,
    {
        Queen { color: self.color, position: clone_position(&self.position) }
    }
}

/// Wire state of a knight.
#[derive(Debug)]
pub struct Knight {
    pub color: i32,
    pub position: Option<Position>,
}

impl Clone for Knight {
    fn clone(&self) -> (res: Self)
        ensures
            res == *self,
    {
        Knight { color: self.color, position: clone_position(&self.position) }
    }
}

/// Wire state of a bishop, with its cosmetic square-color tag.
#[derive(Debug)]
pub struct Bishop {
    pub color: i32,
    pub position: Option<Position>,
    pub square_color: i32,
}

impl Clone for Bishop {
    fn clone(&self) -> (res: Self)
        ensures
            res == *self,
    {
        Bishop {
            color: self.color,
            position: clone_position(&self.position),
            square_color: self.square_color,
        }
    }
}

/// Wire state of a pawn, with move, promotion and en-passant bookkeeping.
#[derive(Debug)]
pub struct Pawn {
    pub color: i32,
    pub position: Option<Position>,
    pub has_moved: bool,
    pub promoted_to: i32,
    pub en_passant_vulnerable: bool,
}

impl Clone for Pawn {
    fn clone(&self) -> (res: Self)
        ensures
            res == *self,
    {
        Pawn {
            color: self.color,
            position: clone_position(&self.position),
            has_moved: self.has_moved,
            promoted_to: self.promoted_to,
            en_passant_vulnerable: self.en_passant_vulnerable,
        }
    }
}

/// The kind tag of a piece on the wire.  The wire format carries no separate
/// rook kind.
#[derive(Debug)]
pub enum PieceKind {
    King(King),
    Queen(Queen),
    Knight(Knight),
    Bishop(Bishop),
    Pawn(Pawn),
}

impl Clone for PieceKind {
    fn clone(&self) -> (res: Self)
        ensures
            res == *self,
    {
        match self {
            PieceKind::King(k) => PieceKind::King(k.clone()),
            PieceKind::Queen(q) => PieceKind::Queen(q.clone()),
            PieceKind::Knight(n) => PieceKind::Knight(n.clone()),
            PieceKind::Bishop(b) => PieceKind::Bishop(b.clone()),
            PieceKind::Pawn(p) => PieceKind::Pawn(p.clone()),
        }
    }
}

/// One entry of the snapshot's piece list.
#[derive(Debug)]
pub struct Piece {
    pub kind: Option<PieceKind>,
    pub captured: bool,
}

impl Clone for Piece {
    fn clone(&self) -> (res: Self)
        ensures
            res == *self,
    {
        let kind = match &self.kind {
            Some(k) => Some(k.clone()),
            None => None,
        };
        Piece { kind, captured: self.captured }
    }
}

/// The snapshot's piece list.
#[derive(Debug)]
pub struct Board {
    pub pieces: Vec<Piece>,
}

impl Clone for Board {
    fn clone(&self) -> (res: Self)
        ensures
            res.pieces@ == self.pieces@,
    {
        let pieces = self.pieces.clone();
        proof {
            assert forall|i: int| 0 <= i < self.pieces@.len() implies pieces@[i]
                == self.pieces@[i] by {
                assert(cloned::<Piece>(self.pieces[i], pieces[i]));
            }
            assert(pieces@ =~= self.pieces@);
        }
        Board { pieces }
    }
}

impl Default for Board {
    /// An empty piece list.
    fn default() -> (res: Self)
        ensures
            res.pieces@ == Seq::<Piece>::empty(),
    {
        Board { pieces: Vec::new() }
    }
}

/// The full game snapshot: piece list, current player, castling rights,
/// en-passant target, and move clocks.
#[derive(Debug)]
pub struct GameState {
    pub board: Option<Board>,
    pub current_player: i32,
    pub white_kingside_castling: bool,
    pub white_queenside_castling: bool,
    pub black_kingside_castling: bool,
    pub black_queenside_castling: bool,
    pub en_passant_target: Option<Position>,
    pub halfmove_clock: i32,
    pub fullmove_number: i32,
}

/// Two snapshots agree on everything an observer can read: the same piece
/// list (or none on both sides) and the same flag and clock fields.
pub open spec fn game_state_equiv(a: GameState, b: GameState) -> bool {
    &&& match (a.board, b.board) {
        (Some(x), Some(y)) => x.pieces@ == y.pieces@,
        (None, None) => true,
        _ => false,
    }
    &&& a.current_player == b.current_player
    &&& a.white_kingside_castling == b.white_kingside_castling
    &&& a.white_queenside_castling == b.white_queenside_castling
    &&& a.black_kingside_castling == b.black_kingside_castling
    &&& a.black_queenside_castling == b.black_queenside_castling
    &&& a.en_passant_target == b.en_passant_target
    &&& a.halfmove_clock == b.halfmove_clock
    &&& a.fullmove_number == b.fullmove_number
}

impl Clone for GameState {
    fn clone(&self) -> (res: Self)
        ensures
            game_state_equiv(res, *self),
    {
        let board = match &self.board {
            Some(b) => Some(b.clone()),
            None => None,
        };
        GameState {
            board,
            current_player: self.current_player,
            white_kingside_castling: self.white_kingside_castling,
            white_queenside_castling: self.white_queenside_castling,
            black_kingside_castling: self.black_kingside_castling,
            black_queenside_castling: self.black_queenside_castling,
            en_passant_target: clone_position(&self.en_passant_target),
            halfmove_clock: self.halfmove_clock,
            fullmove_number: self.fullmove_number,
        }
    }
}

impl Default for GameState {
    /// A snapshot with no piece list, no flags set and zeroed clocks.
    fn default() -> (res: Self)
        ensures
            res.board is None,
            res.current_player == 0,
            !res.white_kingside_castling,
            !res.white_queenside_castling,
            !res.black_kingside_castling,
            !res.black_queenside_castling,
            res.en_passant_target is None,
            res.halfmove_clock == 0,
            res.fullmove_number == 0,
    {
        GameState {
            board: None,
            current_player: 0,
            white_kingside_castling: false,
            white_queenside_castling: false,
            black_kingside_castling: false,
            black_queenside_castling: false,
            en_passant_target: None,
            halfmove_clock: 0,
            fullmove_number: 0,
        }
    }
}

/// Clone an optional wire position, preserving the value exactly.
fn clone_position(p: &Option<Position>) -> (res: Option<Position>)
    ensures
        res == *p,
{
    match p {
        Some(pos) => Some(pos.clone()),
        None => None,
    }
}

} // verus!

//! Coordinate and color primitives, piece geometry, and the capability
//! interface shared by the six piece variants.

use crate::board::{position_square_spec, Board};
use crate::snapshot;
use crate::snapshot::Position;
use vstd::prelude::*;
use vstd::string::StringExecFns;

verus! {

/// A square on the chessboard: zero-indexed file (column) and rank (row).
#[derive(Debug, Clone, Copy, PartialEq, Eq, Hash, Structural)]
pub struct Square {
    pub file: u8,
    pub rank: u8,
}

impl Square {
    /// Both coordinates lie on the 8x8 board.
    pub open spec fn wf(self) -> bool {
        self.file <= 7 && self.rank <= 7
    }

    /// The derived 0-63 linear index of the square.
    pub open spec fn idx(self) -> int {
        self.rank * 8 + self.file
    }

    /// What `new` returns: a square exactly when both coordinates are in range.
    pub open spec fn spec_new(file: u8, rank: u8) -> Option<Square> {
        if file <= 7 && rank <= 7 {
            Some(Square { file, rank })
        } else {
            None
        }
    }

    /// Create a new square from file and rank (0-indexed); `None` outside the
    /// board.
    pub fn new(file: u8, rank: u8) -> (r: Option<Self>)
        ensures
            r == Self::spec_new(file, rank),
            r is Some ==> r.unwrap().wf(),
    {
        if file <= 7 && rank <= 7 {
            Some(Square { file, rank })
        } else {
            None
        }
    }

    /// The saturating one-indexed-to-zero-indexed coordinate map: subtract
    /// one, clamping at zero.  A malformed wire coordinate of 0 collapses to
    /// 0 instead of signaling an error; this sharp edge is part of the wire
    /// contract.
    pub open spec fn wire_coord(x: int) -> int {
        if x <= 1 {
            0
        } else {
            x - 1
        }
    }

    /// What `from_proto` returns: a square for wire coordinates in 0..=8,
    /// `None` for anything else (not representable).
    pub open spec fn spec_from_proto(pos: Position) -> Option<Square> {
        if 0 <= pos.file <= 8 && 0 <= pos.rank <= 8 {
            Some(
                Square {
                    file: Self::wire_coord(pos.file as int) as u8,
                    rank: Self::wire_coord(pos.rank as int) as u8,
                },
            )
        } else {
            None
        }
    }

    /// Create from a wire `Position` (one-indexed coordinates).
    pub fn from_proto(pos: &Position) -> (r: Option<Self>)
        ensures
            r == Self::spec_from_proto(*pos),
            r is Some ==> r.unwrap().wf(),
    {
        if pos.file < 0 || pos.file > 8 || pos.rank < 0 || pos.rank > 8 {
            return None;
        }
        let file: u8 = if pos.file <= 1 {
            0
        } else {
            (pos.file - 1) as u8
        };
        let rank: u8 = if pos.rank <= 1 {
            0
        } else {
            (pos.rank - 1) as u8
        };
        Square::new(file, rank)
    }

    /// Convert to a wire `Position` (one-indexed coordinates, derived linear
    /// index and algebraic string).
    pub fn to_proto(&self) -> (r: Position)
        requires
            self.wf(),
        ensures
            r.file == self.file + 1,
            r.rank == self.rank + 1,
            r.index == self.idx(),
            r.algebraic@ == self.algebraic_view(),
    {
        Position {
            file: (self.file + 1) as i32,
            rank: (self.rank + 1) as i32,
            index: (self.rank * 8 + self.file) as i32,
            algebraic: self.to_algebraic(),
        }
    }

    /// The file letter of the square's algebraic name.
    pub open spec fn file_letter(file: u8) -> Seq<char> {
        if file == 0 {
            "a"@
        } else if file == 1 {
            "b"@
        } else if file == 2 {
            "c"@
        } else if file == 3 {
            "d"@
        } else if file == 4 {
            "e"@
        } else if file == 5 {
            "f"@
        } else if file == 6 {
            "g"@
        } else {
            "h"@
        }
    }

    /// The rank digit of the square's algebraic name.
    pub open spec fn rank_digit(rank: u8) -> Seq<char> {
        if rank == 0 {
            "1"@
        } else if rank == 1 {
            "2"@
        } else if rank == 2 {
            "3"@
        } else if rank == 3 {
            "4"@
        } else if rank == 4 {
            "5"@
        } else if rank == 5 {
            "6"@
        } else if rank == 6 {
            "7"@
        } else {
            "8"@
        }
    }

    /// The square's algebraic name: file letter then rank digit.
    pub open spec fn algebraic_view(self) -> Seq<char> {
        Self::file_letter(self.file) + Self::rank_digit(self.rank)
    }

    /// Convert to algebraic notation (e.g., "e4").
    pub fn to_algebraic(&self) -> (r: String)
        requires
            self.wf(),
        ensures
            r@ == self.algebraic_view(),
    {
        let f: &str = if self.file == 0 {
            "a"
        } else if self.file == 1 {
            "b"
        } else if self.file == 2 {
            "c"
        } else if self.file == 3 {
            "d"
        } else if self.file == 4 {
            "e"
        } else if self.file == 5 {
            "f"
        } else if self.file == 6 {
            "g"
        } else {
            "h"
        };
        let d: &str = if self.rank == 0 {
            "1"
        } else if self.rank == 1 {
            "2"
        } else if self.rank == 2 {
            "3"
        } else if self.rank == 3 {
            "4"
        } else if self.rank == 4 {
            "5"
        } else if self.rank == 5 {
            "6"
        } else if self.rank == 6 {
            "7"
        } else {
            "8"
        };
        let mut s = String::from_str(f);
        s.append(d);
        s
    }
}

/// Color of a piece.
#[derive(Debug, Clone, Copy, PartialEq, Eq, Hash, Structural)]
pub enum Color {
    White,
    Black,
}

impl Color {
    /// The other color.
    pub open spec fn spec_opposite(self) -> Color {
        match self {
            Color::White => Color::Black,
            Color::Black => Color::White,
        }
    }

    /// Return the opposite color.
    pub fn opposite(&self) -> (r: Self)
        ensures
            r == self.spec_opposite(),
    {
        match self {
            Color::White => Color::Black,
            Color::Black => Color::White,
        }
    }

    /// What a wire color code denotes: 1 is White, 2 is Black, and any other
    /// code falls back to White (the wire contract's silent default).
    pub open spec fn spec_from_wire(code: int) -> Color {
        if code == 2 {
            Color::Black
        } else {
            Color::White
        }
    }

    /// Convert from a wire color code.
    pub fn from_proto(proto_color: i32) -> (r: Self)
        ensures
            r == Self::spec_from_wire(proto_color as int),
    {
        match proto_color {
            1 => Color::White,
            2 => Color::Black,
            _ => Color::White,
        }
    }

    /// The wire code of a color.
    pub open spec fn spec_to_wire(self) -> int {
        match self {
            Color::White => 1,
            Color::Black => 2,
        }
    }

    /// Convert to a wire color code.
    pub fn to_proto(&self) -> (r: i32)
        ensures
            r == self.spec_to_wire(),
    {
        match self {
            Color::White => 1,
            Color::Black => 2,
        }
    }
}

/// Taking the opposite color twice comes back to the same color.
pub proof fn lemma_opposite_involution(c: Color)
    ensures
        c.spec_opposite().spec_opposite() == c,
{
}

/// Round-trip law for algebraic notation.  For every board square the
/// algebraic name is two characters: the letter whose code is 'a' plus the
/// file, then the digit whose code is '1' plus the rank.  No two board
/// squares share a name, so the name recovers the original file and rank.
pub proof fn lemma_algebraic_round_trip(sq: Square)
    requires
        sq.wf(),
    ensures
        sq.algebraic_view().len() == 2,
        sq.algebraic_view()[0] as int == 'a' as int + sq.file,
        sq.algebraic_view()[1] as int == '1' as int + sq.rank,
        forall|other: Square|
            other.wf() && other.algebraic_view() == sq.algebraic_view() ==> other == sq,
{
    reveal_strlit("a");
    reveal_strlit("b");
    reveal_strlit("c");
    reveal_strlit("d");
    reveal_strlit("e");
    reveal_strlit("f");
    reveal_strlit("g");
    reveal_strlit("h");
    reveal_strlit("1");
    reveal_strlit("2");
    reveal_strlit("3");
    reveal_strlit("4");
    reveal_strlit("5");
    reveal_strlit("6");
    reveal_strlit("7");
    reveal_strlit("8");
    assert forall|other: Square|
        other.wf() && other.algebraic_view() == sq.algebraic_view() implies other == sq by {
        assert(other.algebraic_view()[0] == sq.algebraic_view()[0]);
        assert(other.algebraic_view()[1] == sq.algebraic_view()[1]);
    }
}

/// Piece type tags.
#[derive(Debug, Clone, Copy, PartialEq, Eq, Hash, Structural)]
pub enum PieceType {
    King,
    Queen,
    Rook,
    Bishop,
    Knight,
    Pawn,
}

/// The piece type a wire promotion code denotes; 0 (and any unknown code)
/// denotes no promotion.
pub open spec fn piece_type_from_wire(code: int) -> Option<PieceType> {
    if code == 1 {
        Some(PieceType::King)
    } else if code == 2 {
        Some(PieceType::Queen)
    } else if code == 3 {
        Some(PieceType::Rook)
    } else if code == 4 {
        Some(PieceType::Bishop)
    } else if code == 5 {
        Some(PieceType::Knight)
    } else if code == 6 {
        Some(PieceType::Pawn)
    } else {
        None
    }
}

/// The wire code of a piece type.
pub open spec fn piece_type_wire(t: PieceType) -> i32 {
    match t {
        PieceType::King => 1,
        PieceType::Queen => 2,
        PieceType::Rook => 3,
        PieceType::Bishop => 4,
        PieceType::Knight => 5,
        PieceType::Pawn => 6,
    }
}

/// The absolute difference of two coordinates.
pub open spec fn abs_diff(x: int, y: int) -> int {
    if x >= y {
        x - y
    } else {
        y - x
    }
}

/// King geometry: Chebyshev distance 1 (at most one step on each axis, and
/// not staying in place).
pub open spec fn king_geometry(pos: Square, target: Square) -> bool {
    let fd = abs_diff(pos.file as int, target.file as int);
    let rd = abs_diff(pos.rank as int, target.rank as int);
    fd <= 1 && rd <= 1 && !(fd == 0 && rd == 0)
}

/// Queen geometry: same file, same rank, or an exact diagonal, excluding the
/// zero offset.
pub open spec fn queen_geometry(pos: Square, target: Square) -> bool {
    let fd = abs_diff(pos.file as int, target.file as int);
    let rd = abs_diff(pos.rank as int, target.rank as int);
    (fd == 0 || rd == 0 || fd == rd) && !(fd == 0 && rd == 0)
}

/// Rook geometry: same file or same rank, excluding the zero offset.
pub open spec fn rook_geometry(pos: Square, target: Square) -> bool {
    let fd = abs_diff(pos.file as int, target.file as int);
    let rd = abs_diff(pos.rank as int, target.rank as int);
    (fd == 0 || rd == 0) && !(fd == 0 && rd == 0)
}

/// Bishop geometry: an exact diagonal, excluding the zero offset.
pub open spec fn bishop_geometry(pos: Square, target: Square) -> bool {
    let fd = abs_diff(pos.file as int, target.file as int);
    let rd = abs_diff(pos.rank as int, target.rank as int);
    fd == rd && fd != 0
}

/// Knight geometry: the eight L-shaped offsets.
pub open spec fn knight_geometry(pos: Square, target: Square) -> bool {
    let fd = abs_diff(pos.file as int, target.file as int);
    let rd = abs_diff(pos.rank as int, target.rank as int);
    (fd == 2 && rd == 1) || (fd == 1 && rd == 2)
}

/// Pawn geometry: one forward step (or two before the pawn has moved) on the
/// same file, or a one-file diagonal in the forward direction.
pub open spec fn pawn_geometry(pos: Square, color: Color, has_moved: bool, target: Square) -> bool {
    let dir = crate::board::pawn_dir(color);
    let rd = target.rank - pos.rank;
    let fd = abs_diff(pos.file as int, target.file as int);
    if fd == 0 {
        rd == dir || (rd == 2 * dir && !has_moved)
    } else {
        fd == 1 && rd == dir
    }
}

/// The square an optional resolved square falls back to: the corner square
/// when nothing resolves.  This silent fallback mirrors the wire contract's
/// tolerance for malformed piece state.
pub open spec fn square_or_corner(o: Option<Square>) -> Square {
    match o {
        Some(s) => s,
        None => Square { file: 0, rank: 0 },
    }
}

/// The displayed name of a color.
pub open spec fn color_name_view(c: Color) -> Seq<char> {
    match c {
        Color::White => "White"@,
        Color::Black => "Black"@,
    }
}

/// The displayed name of a piece type.
pub open spec fn piece_type_name_view(t: PieceType) -> Seq<char> {
    match t {
        PieceType::King => "King"@,
        PieceType::Queen => "Queen"@,
        PieceType::Rook => "Rook"@,
        PieceType::Bishop => "Bishop"@,
        PieceType::Knight => "Knight"@,
        PieceType::Pawn => "Pawn"@,
    }
}

/// The displayed name of a piece: its color, a space, and its type.
pub open spec fn display_name_view(c: Color, t: PieceType) -> Seq<char> {
    color_name_view(c) + " "@ + piece_type_name_view(t)
}

/// The displayed name of a color.
fn color_name(c: Color) -> (r: &'static str)
    ensures
        r@ == color_name_view(c),
{
    match c {
        Color::White => "White",
        Color::Black => "Black",
    }
}

/// The displayed name of a piece type.
fn piece_type_name(t: PieceType) -> (r: &'static str)
    ensures
        r@ == piece_type_name_view(t),
{
    match t {
        PieceType::King => "King",
        PieceType::Queen => "Queen",
        PieceType::Rook => "Rook",
        PieceType::Bishop => "Bishop",
        PieceType::Knight => "Knight",
        PieceType::Pawn => "Pawn",
    }
}

/// Build the displayed name of a piece, e.g. "White King".
fn display_name_for(c: Color, t: PieceType) -> (s: String)
    ensures
        s@ == display_name_view(c, t),
{
    let mut s = String::from_str(color_name(c));
    s.append(" ");
    s.append(piece_type_name(t));
    s
}

/// Whether a move list contains a target square.
fn contains_square(v: &Vec<Square>, target: Square) -> (b: bool)
    ensures
        b == v@.contains(target),
{
    for i in 0..v.len()
        invariant
            forall|k: int| 0 <= k < i ==> v@[k] != target,
    {
        if v[i] == target {
            return true;
        }
    }
    false
}

/// The ray directions of a queen: the four orthogonal directions, then the
/// four diagonals.
pub open spec fn queen_directions() -> Seq<(i32, i32)> {
    seq![(0i32, 1i32), (0i32, -1i32), (1i32, 0i32), (-1i32, 0i32), (1i32, 1i32), (1i32, -1i32), (-1i32, 1i32), (-1i32, -1i32)]
}

/// The ray directions of a rook: the four orthogonal directions.
pub open spec fn rook_directions() -> Seq<(i32, i32)> {
    seq![(0i32, 1i32), (0i32, -1i32), (1i32, 0i32), (-1i32, 0i32)]
}

/// The ray directions of a bishop: the four diagonals.
pub open spec fn bishop_directions() -> Seq<(i32, i32)> {
    seq![(1i32, 1i32), (1i32, -1i32), (-1i32, 1i32), (-1i32, -1i32)]
}

/// Core capability interface shared by all chess pieces.  Each variant fixes
/// the spec functions, and the executable methods are exact against them:
/// `valid_moves` returns precisely the variant's move list for the board.
pub trait Piece: Sized {
    /// The color of the piece.
    spec fn spec_color(&self) -> Color;

    /// The square the piece stands on.
    spec fn spec_position(&self) -> Square;

    /// The type tag of the piece.
    spec fn spec_piece_type(&self) -> PieceType;

    /// The unobstructed movement geometry: whether `target` is reachable by
    /// the piece's movement pattern, ignoring every other piece.
    spec fn spec_geometry(&self, target: Square) -> bool;

    /// The exact move list the piece generates against `board`.
    spec fn spec_moves(&self, board: Board) -> Seq<Square>;

    /// Return the color of the piece.
    fn color(&self) -> (c: Color)
        ensures
            c == self.spec_color(),
    ;

    /// Return the current square the piece is on; the corner square when the
    /// underlying wire state carries no resolvable position.
    fn position(&self) -> (s: Square)
        ensures
            s == self.spec_position(),
            s.wf(),
    ;

    /// Return a type identifier for the piece.
    fn piece_type(&self) -> (t: PieceType)
        ensures
            t == self.spec_piece_type(),
    ;

    /// Check if this piece can move to the given square, ignoring the other
    /// pieces on the board.
    fn can_move_to(&self, target: Square) -> (b: bool)
        ensures
            b == self.spec_geometry(target),
    ;

    /// Get all valid moves for this piece given the current board state:
    /// piece geometry restricted by occupancy.
    fn valid_moves(&self, board: &Board) -> (v: Vec<Square>)
        requires
            board.wf(),
        ensures
            v@ == self.spec_moves(*board),
    ;

    /// Check if a specific move to target is valid given the current board
    /// state: membership in the move list.
    fn is_valid_move(&self, target: Square, board: &Board) -> (b: bool)
        requires
            board.wf(),
        ensures
            b == self.spec_moves(*board).contains(target),
    ;

    /// Return a human-readable name (e.g., "White King").
    fn display_name(&self) -> (s: String)
        ensures
            s@ == display_name_view(self.spec_color(), self.spec_piece_type()),
    ;
}

/// King piece wrapping its wire state.
#[derive(Debug)]
pub struct King {
    inner: snapshot::King,
}

impl King {
    /// The wire state the king wraps.
    pub closed spec fn spec_proto(self) -> snapshot::King {
        self.inner
    }

    /// Whether the king has already moved (castling bookkeeping).
    pub closed spec fn spec_has_moved(self) -> bool {
        self.inner.has_moved
    }

    /// Create a king of the given color on the given square, not yet moved.
    pub fn new(color: Color, position: Square) -> (r: Self)
        requires
            position.wf(),
        ensures
            r.spec_color() == color,
            r.spec_position() == position,
            !r.spec_has_moved(),
    {
        King {
            inner: snapshot::King {
                color: color.to_proto(),
                position: Some(position.to_proto()),
                has_moved: false,
            },
        }
    }

    /// Wrap a wire king unchanged.
    pub fn from_proto(proto: snapshot::King) -> (r: Self)
        ensures
            r.spec_proto() == proto,
    {
        King { inner: proto }
    }

    /// Return the wrapped wire state unchanged.
    pub fn to_proto(&self) -> (r: snapshot::King)
        ensures
            r == self.spec_proto(),
    {
        self.inner.clone()
    }

    /// Whether the king has already moved.
    pub fn has_moved(&self) -> (r: bool)
        ensures
            r == self.spec_has_moved(),
    {
        self.inner.has_moved
    }

    /// Record that the king has moved; nothing else changes.
    pub fn mark_moved(&mut self)
        ensures
            final(self).spec_proto() == (snapshot::King {
                has_moved: true,
                ..old(self).spec_proto()
            }),
    {
        self.inner.has_moved = true;
    }
}

impl Piece for King {
    closed spec fn spec_color(&self) -> Color {
        Color::spec_from_wire(self.inner.color as int)
    }

    closed spec fn spec_position(&self) -> Square {
        square_or_corner(position_square_spec(self.inner.position))
    }

    closed spec fn spec_piece_type(&self) -> PieceType {
        PieceType::King
    }

    open spec fn spec_geometry(&self, target: Square) -> bool {
        king_geometry(self.spec_position(), target)
    }

    open spec fn spec_moves(&self, board: Board) -> Seq<Square> {
        board.spec_king_moves(self.spec_position(), self.spec_color())
    }

    fn color(&self) -> Color {
        Color::from_proto(self.inner.color)
    }

    fn position(&self) -> Square {
        match &self.inner.position {
            Some(pos) => match Square::from_proto(pos) {
                Some(sq) => sq,
                None => Square { file: 0, rank: 0 },
            },
            None => Square { file: 0, rank: 0 },
        }
    }

    fn piece_type(&self) -> PieceType {
        PieceType::King
    }

    fn can_move_to(&self, target: Square) -> bool {
        let pos = self.position();
        let file_diff: u8 = if pos.file >= target.file {
            pos.file - target.file
        } else {
            target.file - pos.file
        };
        let rank_diff: u8 = if pos.rank >= target.rank {
            pos.rank - target.rank
        } else {
            target.rank - pos.rank
        };
        (file_diff <= 1 && rank_diff <= 1) && !(file_diff == 0 && rank_diff == 0)
    }

    fn valid_moves(&self, board: &Board) -> (v: Vec<Square>) {
        let mut moves: Vec<Square> = Vec::new();
        let pos = self.position();
        let color = self.color();
        board.push_offset_move(pos, color, -1, -1, &mut moves);
        board.push_offset_move(pos, color, -1, 0, &mut moves);
        board.push_offset_move(pos, color, -1, 1, &mut moves);
        board.push_offset_move(pos, color, 0, -1, &mut moves);
        board.push_offset_move(pos, color, 0, 1, &mut moves);
        board.push_offset_move(pos, color, 1, -1, &mut moves);
        board.push_offset_move(pos, color, 1, 0, &mut moves);
        board.push_offset_move(pos, color, 1, 1, &mut moves);
        proof {
            assert(moves@ =~= self.spec_moves(*board));
        }
        moves
    }

    fn is_valid_move(&self, target: Square, board: &Board) -> bool {
        let moves = self.valid_moves(board);
        contains_square(&moves, target)
    }

    fn display_name(&self) -> String {
        display_name_for(self.color(), PieceType::King)
    }
}

/// Queen piece wrapping its wire state.
#[derive(Debug)]
pub struct Queen {
    inner: snapshot::Queen,
}

impl Queen {
    /// The wire state the queen wraps.
    pub closed spec fn spec_proto(self) -> snapshot::Queen {
        self.inner
    }

    /// Create a queen of the given color on the given square.
    pub fn new(color: Color, position: Square) -> (r: Self)
        requires
            position.wf(),
        ensures
            r.spec_color() == color,
            r.spec_position() == position,
    {
        Queen {
            inner: snapshot::Queen {
                color: color.to_proto(),
                position: Some(position.to_proto()),
            },
        }
    }

    /// Wrap a wire queen unchanged.
    pub fn from_proto(proto: snapshot::Queen) -> (r: Self)
        ensures
            r.spec_proto() == proto,
    {
        Queen { inner: proto }
    }

    /// Return the wrapped wire state unchanged.
    pub fn to_proto(&self) -> (r: snapshot::Queen)
        ensures
            r == self.spec_proto(),
    {
        self.inner.clone()
    }
}

impl Piece for Queen {
    closed spec fn spec_color(&self) -> Color {
        Color::spec_from_wire(self.inner.color as int)
    }

    closed spec fn spec_position(&self) -> Square {
        square_or_corner(position_square_spec(self.inner.position))
    }

    closed spec fn spec_piece_type(&self) -> PieceType {
        PieceType::Queen
    }

    open spec fn spec_geometry(&self, target: Square) -> bool {
        queen_geometry(self.spec_position(), target)
    }

    open spec fn spec_moves(&self, board: Board) -> Seq<Square> {
        board.spec_sliding_moves(self.spec_position(), self.spec_color(), queen_directions())
    }

    fn color(&self) -> Color {
        Color::from_proto(self.inner.color)
    }

    fn position(&self) -> Square {
        match &self.inner.position {
            Some(pos) => match Square::from_proto(pos) {
                Some(sq) => sq,
                None => Square { file: 0, rank: 0 },
            },
            None => Square { file: 0, rank: 0 },
        }
    }

    fn piece_type(&self) -> PieceType {
        PieceType::Queen
    }

    fn can_move_to(&self, target: Square) -> bool {
        let pos = self.position();
        let file_diff: u8 = if pos.file >= target.file {
            pos.file - target.file
        } else {
            target.file - pos.file
        };
        let rank_diff: u8 = if pos.rank >= target.rank {
            pos.rank - target.rank
        } else {
            target.rank - pos.rank
        };
        (file_diff == 0 || rank_diff == 0 || file_diff == rank_diff) && !(file_diff == 0
            && rank_diff == 0)
    }

    fn valid_moves(&self, board: &Board) -> (v: Vec<Square>) {
        let mut dirs: Vec<(i32, i32)> = Vec::new();
        dirs.push((0, 1));
        dirs.push((0, -1));
        dirs.push((1, 0));
        dirs.push((-1, 0));
        dirs.push((1, 1));
        dirs.push((1, -1));
        dirs.push((-1, 1));
        dirs.push((-1, -1));
        proof {
            assert(dirs@ =~= queen_directions());
            assert(forall|k: int|
                0 <= k < dirs@.len() ==> crate::board::valid_direction(#[trigger] dirs@[k]));
        }
        board.sliding_piece_moves(self.position(), self.color(), dirs.as_slice())
    }

    fn is_valid_move(&self, target: Square, board: &Board) -> bool {
        let moves = self.valid_moves(board);
        contains_square(&moves, target)
    }

    fn display_name(&self) -> String {
        display_name_for(self.color(), PieceType::Queen)
    }
}

/// Rook piece holding validated state directly.
#[derive(Debug)]
pub struct Rook {
    color: Color,
    position: Square,
    has_moved: bool,
}

impl Rook {
    /// A rook always stands on a square of the board.
    #[verifier::type_invariant]
    spec fn inv(self) -> bool {
        self.position.wf()
    }

    /// Whether the rook has already moved (castling bookkeeping).
    pub closed spec fn spec_has_moved(self) -> bool {
        self.has_moved
    }

    /// Create a rook of the given color on the given square, not yet moved.
    pub fn new(color: Color, position: Square) -> (r: Self)
        requires
            position.wf(),
        ensures
            r.spec_color() == color,
            r.spec_position() == position,
            !r.spec_has_moved(),
    {
        Rook { color, position, has_moved: false }
    }

    /// Whether the rook has already moved.
    pub fn has_moved(&self) -> (r: bool)
        ensures
            r == self.spec_has_moved(),
    {
        self.has_moved
    }

    /// Record that the rook has moved; color and position are unchanged.
    pub fn mark_moved(&mut self)
        ensures
            final(self).spec_has_moved(),
            final(self).spec_color() == old(self).spec_color(),
            final(self).spec_position() == old(self).spec_position(),
    {
        proof {
            use_type_invariant(&*self);
        }
        let color = self.color;
        let position = self.position;
        *self = Rook { color, position, has_moved: true };
    }
}

impl Piece for Rook {
    closed spec fn spec_color(&self) -> Color {
        self.color
    }

    closed spec fn spec_position(&self) -> Square {
        self.position
    }

    closed spec fn spec_piece_type(&self) -> PieceType {
        PieceType::Rook
    }

    open spec fn spec_geometry(&self, target: Square) -> bool {
        rook_geometry(self.spec_position(), target)
    }

    open spec fn spec_moves(&self, board: Board) -> Seq<Square> {
        board.spec_sliding_moves(self.spec_position(), self.spec_color(), rook_directions())
    }

    fn color(&self) -> Color {
        self.color
    }

    fn position(&self) -> (s: Square) {
        proof {
            use_type_invariant(self);
        }
        self.position
    }

    fn piece_type(&self) -> PieceType {
        PieceType::Rook
    }

    fn can_move_to(&self, target: Square) -> bool {
        let file_diff: u8 = if self.position.file >= target.file {
            self.position.file - target.file
        } else {
            target.file - self.position.file
        };
        let rank_diff: u8 = if self.position.rank >= target.rank {
            self.position.rank - target.rank
        } else {
            target.rank - self.position.rank
        };
        (file_diff == 0 || rank_diff == 0) && !(file_diff == 0 && rank_diff == 0)
    }

    fn valid_moves(&self, board: &Board) -> (v: Vec<Square>) {
        let mut dirs: Vec<(i32, i32)> = Vec::new();
        dirs.push((0, 1));
        dirs.push((0, -1));
        dirs.push((1, 0));
        dirs.push((-1, 0));
        proof {
            assert(dirs@ =~= rook_directions());
            assert(forall|k: int|
                0 <= k < dirs@.len() ==> crate::board::valid_direction(#[trigger] dirs@[k]));
        }
        board.sliding_piece_moves(self.position(), self.color(), dirs.as_slice())
    }

    fn is_valid_move(&self, target: Square, board: &Board) -> bool {
        let moves = self.valid_moves(board);
        contains_square(&moves, target)
    }

    fn display_name(&self) -> String {
        display_name_for(self.color(), PieceType::Rook)
    }
}

/// The shade of the square a bishop stands on: cosmetic bookkeeping, unused
/// by the movement geometry.
#[derive(Debug, Clone, Copy, PartialEq, Eq, Structural)]
pub enum BishopSquareColor {
    Light,
    Dark,
}

/// The square shade a wire code denotes: 1 is Light, 2 is Dark, and any
/// other code falls back to Light.
pub open spec fn bishop_square_color_from_wire(code: int) -> BishopSquareColor {
    if code == 2 {
        BishopSquareColor::Dark
    } else {
        BishopSquareColor::Light
    }
}

/// The wire code of a square shade.
pub open spec fn bishop_square_color_wire(sc: BishopSquareColor) -> i32 {
    match sc {
        BishopSquareColor::Light => 1,
        BishopSquareColor::Dark => 2,
    }
}

impl BishopSquareColor {
    /// Convert to a wire square-shade code.
    fn to_proto(&self) -> (r: i32)
        ensures
            r == bishop_square_color_wire(*self),
    {
        match self {
            BishopSquareColor::Light => 1,
            BishopSquareColor::Dark => 2,
        }
    }

    /// Convert from a wire square-shade code.
    fn from_proto(val: i32) -> (r: Self)
        ensures
            r == bishop_square_color_from_wire(val as int),
    {
        match val {
            1 => BishopSquareColor::Light,
            2 => BishopSquareColor::Dark,
            _ => BishopSquareColor::Light,
        }
    }
}

/// Bishop piece wrapping its wire state.
#[derive(Debug)]
pub struct Bishop {
    inner: snapshot::Bishop,
}

impl Bishop {
    /// The wire state the bishop wraps.
    pub closed spec fn spec_proto(self) -> snapshot::Bishop {
        self.inner
    }

    /// The shade of the bishop's home square.
    pub closed spec fn spec_square_color(self) -> BishopSquareColor {
        bishop_square_color_from_wire(self.inner.square_color as int)
    }

    /// Create a bishop of the given color on the given square, with its
    /// square shade.
    pub fn new(color: Color, position: Square, square_color: BishopSquareColor) -> (r: Self)
        requires
            position.wf(),
        ensures
            r.spec_color() == color,
            r.spec_position() == position,
            r.spec_square_color() == square_color,
    {
        Bishop {
            inner: snapshot::Bishop {
                color: color.to_proto(),
                position: Some(position.to_proto()),
                square_color: square_color.to_proto(),
            },
        }
    }

    /// Wrap a wire bishop unchanged.
    pub fn from_proto(proto: snapshot::Bishop) -> (r: Self)
        ensures
            r.spec_proto() == proto,
    {
        Bishop { inner: proto }
    }

    /// Return the wrapped wire state unchanged.
    pub fn to_proto(&self) -> (r: snapshot::Bishop)
        ensures
            r == self.spec_proto(),
    {
        self.inner.clone()
    }

    /// The shade of the bishop's home square.
    pub fn square_color(&self) -> (r: BishopSquareColor)
        ensures
            r == self.spec_square_color(),
    {
        BishopSquareColor::from_proto(self.inner.square_color)
    }
}

impl Piece for Bishop {
    closed spec fn spec_color(&self) -> Color {
        Color::spec_from_wire(self.inner.color as int)
    }

    closed spec fn spec_position(&self) -> Square {
        square_or_corner(position_square_spec(self.inner.position))
    }

    closed spec fn spec_piece_type(&self) -> PieceType {
        PieceType::Bishop
    }

    open spec fn spec_geometry(&self, target: Square) -> bool {
        bishop_geometry(self.spec_position(), target)
    }

    open spec fn spec_moves(&self, board: Board) -> Seq<Square> {
        board.spec_sliding_moves(self.spec_position(), self.spec_color(), bishop_directions())
    }

    fn color(&self) -> Color {
        Color::from_proto(self.inner.color)
    }

    fn position(&self) -> Square {
        match &self.inner.position {
            Some(pos) => match Square::from_proto(pos) {
                Some(sq) => sq,
                None => Square { file: 0, rank: 0 },
            },
            None => Square { file: 0, rank: 0 },
        }
    }

    fn piece_type(&self) -> PieceType {
        PieceType::Bishop
    }

    fn can_move_to(&self, target: Square) -> bool {
        let pos = self.position();
        let file_diff: u8 = if pos.file >= target.file {
            pos.file - target.file
        } else {
            target.file - pos.file
        };
        let rank_diff: u8 = if pos.rank >= target.rank {
            pos.rank - target.rank
        } else {
            target.rank - pos.rank
        };
        file_diff == rank_diff && file_diff != 0
    }

    fn valid_moves(&self, board: &Board) -> (v: Vec<Square>) {
        let mut dirs: Vec<(i32, i32)> = Vec::new();
        dirs.push((1, 1));
        dirs.push((1, -1));
        dirs.push((-1, 1));
        dirs.push((-1, -1));
        proof {
            assert(dirs@ =~= bishop_directions());
            assert(forall|k: int|
                0 <= k < dirs@.len() ==> crate::board::valid_direction(#[trigger] dirs@[k]));
        }
        board.sliding_piece_moves(self.position(), self.color(), dirs.as_slice())
    }

    fn is_valid_move(&self, target: Square, board: &Board) -> bool {
        let moves = self.valid_moves(board);
        contains_square(&moves, target)
    }

    fn display_name(&self) -> String {
        display_name_for(self.color(), PieceType::Bishop)
    }
}

/// Knight piece wrapping its wire state.
#[derive(Debug)]
pub struct Knight {
    inner: snapshot::Knight,
}

impl Knight {
    /// The wire state the knight wraps.
    pub closed spec fn spec_proto(self) -> snapshot::Knight {
        self.inner
    }

    /// Create a knight of the given color on the given square.
    pub fn new(color: Color, position: Square) -> (r: Self)
        requires
            position.wf(),
        ensures
            r.spec_color() == color,
            r.spec_position() == position,
    {
        Knight {
            inner: snapshot::Knight {
                color: color.to_proto(),
                position: Some(position.to_proto()),
            },
        }
    }

    /// Wrap a wire knight unchanged.
    pub fn from_proto(proto: snapshot::Knight) -> (r: Self)
        ensures
            r.spec_proto() == proto,
    {
        Knight { inner: proto }
    }

    /// Return the wrapped wire state unchanged.
    pub fn to_proto(&self) -> (r: snapshot::Knight)
        ensures
            r == self.spec_proto(),
    {
        self.inner.clone()
    }
}

impl Piece for Knight {
    closed spec fn spec_color(&self) -> Color {
        Color::spec_from_wire(self.inner.color as int)
    }

    closed spec fn spec_position(&self) -> Square {
        square_or_corner(position_square_spec(self.inner.position))
    }

    closed spec fn spec_piece_type(&self) -> PieceType {
        PieceType::Knight
    }

    open spec fn spec_geometry(&self, target: Square) -> bool {
        knight_geometry(self.spec_position(), target)
    }

    open spec fn spec_moves(&self, board: Board) -> Seq<Square> {
        board.spec_knight_moves(self.spec_position(), self.spec_color())
    }

    fn color(&self) -> Color {
        Color::from_proto(self.inner.color)
    }

    fn position(&self) -> Square {
        match &self.inner.position {
            Some(pos) => match Square::from_proto(pos) {
                Some(sq) => sq,
                None => Square { file: 0, rank: 0 },
            },
            None => Square { file: 0, rank: 0 },
        }
    }

    fn piece_type(&self) -> PieceType {
        PieceType::Knight
    }

    fn can_move_to(&self, target: Square) -> bool {
        let pos = self.position();
        let file_diff: u8 = if pos.file >= target.file {
            pos.file - target.file
        } else {
            target.file - pos.file
        };
        let rank_diff: u8 = if pos.rank >= target.rank {
            pos.rank - target.rank
        } else {
            target.rank - pos.rank
        };
        (file_diff == 2 && rank_diff == 1) || (file_diff == 1 && rank_diff == 2)
    }

    fn valid_moves(&self, board: &Board) -> (v: Vec<Square>) {
        let mut moves: Vec<Square> = Vec::new();
        let pos = self.position();
        let color = self.color();
        board.push_offset_move(pos, color, 2, 1, &mut moves);
        board.push_offset_move(pos, color, 2, -1, &mut moves);
        board.push_offset_move(pos, color, -2, 1, &mut moves);
        board.push_offset_move(pos, color, -2, -1, &mut moves);
        board.push_offset_move(pos, color, 1, 2, &mut moves);
        board.push_offset_move(pos, color, 1, -2, &mut moves);
        board.push_offset_move(pos, color, -1, 2, &mut moves);
        board.push_offset_move(pos, color, -1, -2, &mut moves);
        proof {
            assert(moves@ =~= self.spec_moves(*board));
        }
        moves
    }

    fn is_valid_move(&self, target: Square, board: &Board) -> bool {
        let moves = self.valid_moves(board);
        contains_square(&moves, target)
    }

    fn display_name(&self) -> String {
        display_name_for(self.color(), PieceType::Knight)
    }
}

/// Pawn piece wrapping its wire state.
#[derive(Debug)]
pub struct Pawn {
    inner: snapshot::Pawn,
}

impl Pawn {
    /// The wire state the pawn wraps.
    pub closed spec fn spec_proto(self) -> snapshot::Pawn {
        self.inner
    }

    /// Whether the pawn has already moved.
    pub closed spec fn spec_has_moved(self) -> bool {
        self.inner.has_moved
    }

    /// Create a pawn of the given color on the given square: not yet moved,
    /// not promoted, not en-passant vulnerable.
    pub fn new(color: Color, position: Square) -> (r: Self)
        requires
            position.wf(),
        ensures
            r.spec_color() == color,
            r.spec_position() == position,
            !r.spec_has_moved(),
            r.spec_proto().promoted_to == 0,
            !r.spec_proto().en_passant_vulnerable,
    {
        Pawn {
            inner: snapshot::Pawn {
                color: color.to_proto(),
                position: Some(position.to_proto()),
                has_moved: false,
                promoted_to: 0,
                en_passant_vulnerable: false,
            },
        }
    }

    /// Wrap a wire pawn unchanged.
    pub fn from_proto(proto: snapshot::Pawn) -> (r: Self)
        ensures
            r.spec_proto() == proto,
    {
        Pawn { inner: proto }
    }

    /// Return the wrapped wire state unchanged.
    pub fn to_proto(&self) -> (r: snapshot::Pawn)
        ensures
            r == self.spec_proto(),
    {
        self.inner.clone()
    }

    /// Whether the pawn has already moved.
    pub fn has_moved(&self) -> (r: bool)
        ensures
            r == self.spec_has_moved(),
    {
        self.inner.has_moved
    }

    /// Record that the pawn has moved; nothing else changes.
    pub fn mark_moved(&mut self)
        ensures
            final(self).spec_proto() == (snapshot::Pawn {
                has_moved: true,
                ..old(self).spec_proto()
            }),
    {
        self.inner.has_moved = true;
    }

    /// The piece type this pawn has been promoted to, if any.
    pub fn promoted_to(&self) -> (r: Option<PieceType>)
        ensures
            r == piece_type_from_wire(self.spec_proto().promoted_to as int),
    {
        match self.inner.promoted_to {
            1 => Some(PieceType::King),
            2 => Some(PieceType::Queen),
            3 => Some(PieceType::Rook),
            4 => Some(PieceType::Bishop),
            5 => Some(PieceType::Knight),
            6 => Some(PieceType::Pawn),
            _ => None,
        }
    }

    /// Record a promotion to the given piece type; nothing else changes.
    pub fn set_promoted_to(&mut self, piece_type: PieceType)
        ensures
            final(self).spec_proto() == (snapshot::Pawn {
                promoted_to: piece_type_wire(piece_type),
                ..old(self).spec_proto()
            }),
    {
        self.inner.promoted_to = match piece_type {
            PieceType::King => 1,
            PieceType::Queen => 2,
            PieceType::Rook => 3,
            PieceType::Bishop => 4,
            PieceType::Knight => 5,
            PieceType::Pawn => 6,
        };
    }

    /// Whether the pawn is vulnerable to en-passant capture.
    pub fn en_passant_vulnerable(&self) -> (r: bool)
        ensures
            r == self.spec_proto().en_passant_vulnerable,
    {
        self.inner.en_passant_vulnerable
    }

    /// Set the en-passant-vulnerable flag; nothing else changes.
    pub fn set_en_passant_vulnerable(&mut self, vulnerable: bool)
        ensures
            final(self).spec_proto() == (snapshot::Pawn {
                en_passant_vulnerable: vulnerable,
                ..old(self).spec_proto()
            }),
    {
        self.inner.en_passant_vulnerable = vulnerable;
    }
}

impl Piece for Pawn {
    closed spec fn spec_color(&self) -> Color {
        Color::spec_from_wire(self.inner.color as int)
    }

    closed spec fn spec_position(&self) -> Square {
        square_or_corner(position_square_spec(self.inner.position))
    }

    closed spec fn spec_piece_type(&self) -> PieceType {
        PieceType::Pawn
    }

    open spec fn spec_geometry(&self, target: Square) -> bool {
        pawn_geometry(self.spec_position(), self.spec_color(), self.spec_has_moved(), target)
    }

    open spec fn spec_moves(&self, board: Board) -> Seq<Square> {
        board.spec_pawn_moves(self.spec_position(), self.spec_color(), self.spec_has_moved())
    }

    fn color(&self) -> Color {
        Color::from_proto(self.inner.color)
    }

    fn position(&self) -> Square {
        match &self.inner.position {
            Some(pos) => match Square::from_proto(pos) {
                Some(sq) => sq,
                None => Square { file: 0, rank: 0 },
            },
            None => Square { file: 0, rank: 0 },
        }
    }

    fn piece_type(&self) -> PieceType {
        PieceType::Pawn
    }

    fn can_move_to(&self, target: Square) -> bool {
        let pos = self.position();
        let direction: i32 = match self.color() {
            Color::White => 1,
            Color::Black => -1,
        };
        let rank_diff: i32 = target.rank as i32 - pos.rank as i32;
        let file_diff: i32 = if pos.file >= target.file {
            (pos.file - target.file) as i32
        } else {
            (target.file - pos.file) as i32
        };
        if file_diff == 0 {
            if rank_diff == direction {
                true
            } else if rank_diff == 2 * direction && !self.has_moved() {
                true
            } else {
                false
            }
        } else if file_diff == 1 && rank_diff == direction {
            true
        } else {
            false
        }
    }

    fn valid_moves(&self, board: &Board) -> (v: Vec<Square>) {
        board.pawn_moves(self.position(), self.color(), self.has_moved())
    }

    fn is_valid_move(&self, target: Square, board: &Board) -> bool {
        let moves = self.valid_moves(board);
        contains_square(&moves, target)
    }

    fn display_name(&self) -> String {
        display_name_for(self.color(), PieceType::Pawn)
    }
}

} // verus!

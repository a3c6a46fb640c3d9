//! Board state: an occupancy index over a game snapshot, and the move
//! generation algorithms that query it.

use crate::pieces::{Color, Square};
use crate::snapshot;
use vstd::prelude::*;

verus! {

/// The color a wire piece resolves to, if its kind tag is present.
pub open spec fn piece_color_spec(p: snapshot::Piece) -> Option<Color> {
    match p.kind {
        Some(snapshot::PieceKind::King(k)) => Some(Color::spec_from_wire(k.color as int)),
        Some(snapshot::PieceKind::Queen(q)) => Some(Color::spec_from_wire(q.color as int)),
        Some(snapshot::PieceKind::Knight(n)) => Some(Color::spec_from_wire(n.color as int)),
        Some(snapshot::PieceKind::Bishop(b)) => Some(Color::spec_from_wire(b.color as int)),
        Some(snapshot::PieceKind::Pawn(p)) => Some(Color::spec_from_wire(p.color as int)),
        None => None,
    }
}

/// The square a wire piece resolves to, if its kind tag and position are
/// present and the position's coordinates are representable.
pub open spec fn piece_square_spec(p: snapshot::Piece) -> Option<Square> {
    match p.kind {
        Some(snapshot::PieceKind::King(k)) => position_square_spec(k.position),
        Some(snapshot::PieceKind::Queen(q)) => position_square_spec(q.position),
        Some(snapshot::PieceKind::Knight(n)) => position_square_spec(n.position),
        Some(snapshot::PieceKind::Bishop(b)) => position_square_spec(b.position),
        Some(snapshot::PieceKind::Pawn(p)) => position_square_spec(p.position),
        None => None,
    }
}

/// The square an optional wire position resolves to.
pub open spec fn position_square_spec(pos: Option<snapshot::Position>) -> Option<Square> {
    match pos {
        Some(p) => Square::spec_from_proto(p),
        None => None,
    }
}

/// The piece list of a snapshot, or the empty list when the snapshot carries
/// no board.
pub open spec fn snapshot_pieces(gs: snapshot::GameState) -> Seq<snapshot::Piece> {
    match gs.board {
        Some(b) => b.pieces@,
        None => Seq::empty(),
    }
}

/// The occupant of `sq` among the first `n` entries of the piece list: the
/// latest non-captured entry that resolves to `sq` (a later entry shadows an
/// earlier one on the same square).
pub open spec fn occupant_upto(
    pieces: Seq<snapshot::Piece>,
    sq: Square,
    n: int,
) -> Option<snapshot::Piece>
    decreases n,
{
    if n <= 0 || n > pieces.len() {
        None
    } else {
        let p = pieces[n - 1];
        if !p.captured && piece_square_spec(p) == Some(sq) {
            Some(p)
        } else {
            occupant_upto(pieces, sq, n - 1)
        }
    }
}

/// The pieces of color `c` among the first `n` entries of the piece list, in
/// list order, captured entries excluded.
pub open spec fn partition_upto(
    pieces: Seq<snapshot::Piece>,
    c: Color,
    n: int,
) -> Seq<snapshot::Piece>
    decreases n,
{
    if n <= 0 || n > pieces.len() {
        Seq::empty()
    } else {
        let p = pieces[n - 1];
        if !p.captured && piece_color_spec(p) == Some(c) {
            partition_upto(pieces, c, n - 1).push(p)
        } else {
            partition_upto(pieces, c, n - 1)
        }
    }
}

/// An occupant square never lies off the board, so a square outside the
/// board has no occupant.
pub proof fn lemma_occupant_non_wf(pieces: Seq<snapshot::Piece>, sq: Square, n: int)
    requires
        !sq.wf(),
    ensures
        occupant_upto(pieces, sq, n) is None,
    decreases n,
{
    if 0 < n <= pieces.len() {
        lemma_occupant_non_wf(pieces, sq, n - 1);
    }
}

/// Board wraps a game snapshot and provides an occupancy index for piece
/// lookup and move generation.  The index is derived once, at construction:
/// the snapshot is treated as immutable.
#[derive(Debug)]
pub struct Board {
    inner: snapshot::GameState,
    square_to_piece: Vec<Option<snapshot::Piece>>,
    white_pieces: Vec<snapshot::Piece>,
    black_pieces: Vec<snapshot::Piece>,
}

impl Board {
    /// The snapshot the board was built from.
    pub closed spec fn snapshot(self) -> snapshot::GameState {
        self.inner
    }

    /// The occupant of a square, as determined by the snapshot's piece list.
    pub open spec fn spec_occupant(self, sq: Square) -> Option<snapshot::Piece> {
        occupant_upto(
            snapshot_pieces(self.snapshot()),
            sq,
            snapshot_pieces(self.snapshot()).len() as int,
        )
    }

    /// The color partition of the snapshot's piece list.
    pub open spec fn spec_pieces_of_color(self, c: Color) -> Seq<snapshot::Piece> {
        partition_upto(
            snapshot_pieces(self.snapshot()),
            c,
            snapshot_pieces(self.snapshot()).len() as int,
        )
    }

    /// The derived index agrees with the snapshot: 64 occupancy slots, one
    /// per square, each holding that square's occupant, and the two color
    /// lists holding the color partitions.
    pub closed spec fn wf(self) -> bool {
        &&& self.square_to_piece@.len() == 64
        &&& forall|sq: Square|
            sq.wf() ==> self.square_to_piece@[sq.idx()] == self.spec_occupant(sq)
        &&& self.white_pieces@ == self.spec_pieces_of_color(Color::White)
        &&& self.black_pieces@ == self.spec_pieces_of_color(Color::Black)
    }

    /// Create a new board from a game snapshot, building the occupancy index
    /// and the color partitions.  A piece that is captured, or that lacks a
    /// resolvable position, claims no square; one that lacks a resolvable
    /// color joins neither partition.
    pub fn from_proto(proto: snapshot::GameState) -> (b: Self)
        ensures
            b.wf(),
            b.snapshot() == proto,
    {
        let mut square_to_piece: Vec<Option<snapshot::Piece>> = Vec::new();
        let mut white_pieces: Vec<snapshot::Piece> = Vec::new();
        let mut black_pieces: Vec<snapshot::Piece> = Vec::new();
        for _slot in 0..64usize
            invariant
                square_to_piece@.len() == _slot,
                forall|k: int| 0 <= k < _slot ==> square_to_piece@[k] is None,
        {
            square_to_piece.push(None);
        }
        match &proto.board {
            Some(bd) => {
                let n = bd.pieces.len();
                for i in 0..n
                    invariant
                        n == bd.pieces@.len(),
                        square_to_piece@.len() == 64,
                        forall|sq: Square|
                            sq.wf() ==> square_to_piece@[sq.idx()] == occupant_upto(
                                bd.pieces@,
                                sq,
                                i as int,
                            ),
                        white_pieces@ == partition_upto(bd.pieces@, Color::White, i as int),
                        black_pieces@ == partition_upto(bd.pieces@, Color::Black, i as int),
                {
                    let piece = &bd.pieces[i];
                    if !piece.captured {
                        match Self::piece_square(piece) {
                            Some(square) => {
                                let idx: usize = square.rank as usize * 8 + square.file as usize;
                                square_to_piece.set(idx, Some(piece.clone()));
                            },
                            None => {},
                        }
                        match Self::piece_color(piece) {
                            Some(Color::White) => white_pieces.push(piece.clone()),
                            Some(Color::Black) => black_pieces.push(piece.clone()),
                            None => {},
                        }
                    }
                    proof {
                        assert forall|sq: Square| sq.wf() implies square_to_piece@[sq.idx()]
                            == occupant_upto(bd.pieces@, sq, i + 1) by {}
                    }
                }
            },
            None => {},
        }
        Board { inner: proto, square_to_piece, white_pieces, black_pieces }
    }

    /// Convert back to a game snapshot, preserving every observable field.
    pub fn to_proto(&self) -> (r: snapshot::GameState)
        ensures
            snapshot::game_state_equiv(r, self.snapshot()),
    {
        self.inner.clone()
    }

    /// The color of a wire piece, if its kind tag is present.
    fn piece_color(piece: &snapshot::Piece) -> (r: Option<Color>)
        ensures
            r == piece_color_spec(*piece),
    {
        match &piece.kind {
            Some(snapshot::PieceKind::King(k)) => Some(Color::from_proto(k.color)),
            Some(snapshot::PieceKind::Queen(q)) => Some(Color::from_proto(q.color)),
            Some(snapshot::PieceKind::Knight(n)) => Some(Color::from_proto(n.color)),
            Some(snapshot::PieceKind::Bishop(b)) => Some(Color::from_proto(b.color)),
            Some(snapshot::PieceKind::Pawn(p)) => Some(Color::from_proto(p.color)),
            None => None,
        }
    }

    /// The square of a wire piece, if its kind tag and position resolve.
    fn piece_square(piece: &snapshot::Piece) -> (r: Option<Square>)
        ensures
            r == piece_square_spec(*piece),
            r is Some ==> r.unwrap().wf(),
    {
        match &piece.kind {
            Some(snapshot::PieceKind::King(k)) => Self::option_square(&k.position),
            Some(snapshot::PieceKind::Queen(q)) => Self::option_square(&q.position),
            Some(snapshot::PieceKind::Knight(n)) => Self::option_square(&n.position),
            Some(snapshot::PieceKind::Bishop(b)) => Self::option_square(&b.position),
            Some(snapshot::PieceKind::Pawn(p)) => Self::option_square(&p.position),
            None => None,
        }
    }

    /// The square an optional wire position resolves to.
    fn option_square(pos: &Option<snapshot::Position>) -> (r: Option<Square>)
        ensures
            r == position_square_spec(*pos),
            r is Some ==> r.unwrap().wf(),
    {
        match pos {
            Some(p) => Square::from_proto(p),
            None => None,
        }
    }

    /// Get the piece at a given square, if any.
    pub fn piece_at(&self, square: Square) -> (r: Option<&snapshot::Piece>)
        requires
            self.wf(),
        ensures
            match r {
                Some(p) => self.spec_occupant(square) == Some(*p),
                None => self.spec_occupant(square) is None,
            },
    {
        if square.file > 7 || square.rank > 7 {
            proof {
                lemma_occupant_non_wf(
                    snapshot_pieces(self.snapshot()),
                    square,
                    snapshot_pieces(self.snapshot()).len() as int,
                );
            }
            return None;
        }
        let idx: usize = square.rank as usize * 8 + square.file as usize;
        proof {
            assert(square.wf());
            assert(idx as int == square.idx());
            assert(self.square_to_piece@[square.idx()] == self.spec_occupant(square));
        }
        self.square_to_piece[idx].as_ref()
    }

    /// A square is empty or holds an opponent of `color`; only a same-color
    /// occupant blocks.  This holds for every color/square combination: an
    /// empty square and an opposite-color occupant give `true`, a same-color
    /// occupant gives `false`.
    pub open spec fn spec_empty_or_capturable(self, square: Square, color: Color) -> bool {
        match self.spec_occupant(square) {
            Some(p) => piece_color_spec(p) != Some(color),
            None => true,
        }
    }

    /// Check if a square is empty or contains an opponent's piece.
    pub fn is_empty_or_capturable(&self, square: Square, color: Color) -> (r: bool)
        requires
            self.wf(),
        ensures
            r == self.spec_empty_or_capturable(square, color),
    {
        match self.piece_at(square) {
            Some(piece) => match Self::piece_color(piece) {
                Some(c) => c != color,
                None => true,
            },
            None => true,
        }
    }

    /// Get all pieces of a given color, in piece-list order.
    pub fn pieces_of_color(&self, color: Color) -> (r: &[snapshot::Piece])
        requires
            self.wf(),
        ensures
            r@ == self.spec_pieces_of_color(color),
    {
        match color {
            Color::White => self.white_pieces.as_slice(),
            Color::Black => self.black_pieces.as_slice(),
        }
    }

    /// The occupants of the first `n` squares, in linear-index order.
    pub open spec fn occupants_upto(self, n: int) -> Seq<snapshot::Piece>
        decreases n,
    {
        if n <= 0 {
            Seq::empty()
        } else {
            let rest = self.occupants_upto(n - 1);
            match self.spec_occupant(square_of_index(n - 1)) {
                Some(p) => rest.push(p),
                None => rest,
            }
        }
    }

    /// All pieces standing on the board, in linear-index order of their
    /// squares.
    pub open spec fn spec_all_pieces(self) -> Seq<snapshot::Piece> {
        self.occupants_upto(64)
    }

    /// Get all pieces standing on some square, in square order.
    pub fn all_pieces(&self) -> (r: Vec<snapshot::Piece>)
        requires
            self.wf(),
        ensures
            r@ == self.spec_all_pieces(),
    {
        let mut out: Vec<snapshot::Piece> = Vec::new();
        for i in 0..64usize
            invariant
                self.wf(),
                out@ == self.occupants_upto(i as int),
        {
            proof {
                let sq = square_of_index(i as int);
                assert(sq.wf());
                assert(sq.idx() == i);
            }
            match &self.square_to_piece[i] {
                Some(p) => out.push(p.clone()),
                None => {},
            }
        }
        out
    }

    /// Get the current player color.
    pub fn current_player(&self) -> (r: Color)
        ensures
            r == Color::spec_from_wire(self.snapshot().current_player as int),
    {
        Color::from_proto(self.inner.current_player)
    }

    /// Get the white kingside castling right.
    pub fn white_kingside_castling(&self) -> (r: bool)
        ensures
            r == self.snapshot().white_kingside_castling,
    {
        self.inner.white_kingside_castling
    }

    /// Get the white queenside castling right.
    pub fn white_queenside_castling(&self) -> (r: bool)
        ensures
            r == self.snapshot().white_queenside_castling,
    {
        self.inner.white_queenside_castling
    }

    /// Get the black kingside castling right.
    pub fn black_kingside_castling(&self) -> (r: bool)
        ensures
            r == self.snapshot().black_kingside_castling,
    {
        self.inner.black_kingside_castling
    }

    /// Get the black queenside castling right.
    pub fn black_queenside_castling(&self) -> (r: bool)
        ensures
            r == self.snapshot().black_queenside_castling,
    {
        self.inner.black_queenside_castling
    }

    /// The en-passant target square the snapshot designates, if any.
    pub open spec fn spec_en_passant_target(self) -> Option<Square> {
        position_square_spec(self.snapshot().en_passant_target)
    }

    /// Get the en-passant target square, if any.
    pub fn en_passant_target(&self) -> (r: Option<Square>)
        ensures
            r == self.spec_en_passant_target(),
    {
        Self::option_square(&self.inner.en_passant_target)
    }

    /// Get the halfmove clock (fifty-move bookkeeping; not enforced here).
    pub fn halfmove_clock(&self) -> (r: i32)
        ensures
            r == self.snapshot().halfmove_clock,
    {
        self.inner.halfmove_clock
    }

    /// Get the fullmove number.
    pub fn fullmove_number(&self) -> (r: i32)
        ensures
            r == self.snapshot().fullmove_number,
    {
        self.inner.fullmove_number
    }
}

/// The square with the given 0-63 linear index.
pub open spec fn square_of_index(i: int) -> Square {
    Square { file: (i % 8) as u8, rank: (i / 8) as u8 }
}

/// Both coordinates lie on the 8x8 board.
pub open spec fn in_board(f: int, r: int) -> bool {
    0 <= f <= 7 && 0 <= r <= 7
}

/// A unit ray direction: each component is -1, 0 or 1, and not both are 0.
pub open spec fn valid_direction(d: (i32, i32)) -> bool {
    -1 <= d.0 <= 1 && -1 <= d.1 <= 1 && !(d.0 == 0 && d.1 == 0)
}

/// How many steps of `dx` fit before coordinate `x` leaves the board on that
/// axis; an inactive axis (`dx == 0`) never limits a ray.
pub open spec fn axis_distance(x: int, dx: int) -> int {
    if dx > 0 {
        7 - x
    } else if dx < 0 {
        x
    } else {
        8
    }
}

/// The number of squares from `(f, r)` to the board edge in direction
/// `(df, dr)`: the tighter of the two axis distances.
pub open spec fn edge_distance(f: int, r: int, df: int, dr: int) -> int {
    if axis_distance(f, df) <= axis_distance(r, dr) {
        axis_distance(f, df)
    } else {
        axis_distance(r, dr)
    }
}

impl Board {
    /// The squares a slider of `color` standing on `(f, r)` may move to in
    /// direction `(df, dr)`: one square at a time until the ray leaves the
    /// board, is stopped by a same-color piece (excluded), or captures an
    /// opponent piece (included, then stopped).
    pub open spec fn ray_from(self, color: Color, f: int, r: int, df: int, dr: int) -> Seq<
        Square,
    >
        decreases edge_distance(f, r, df, dr),
    {
        if df == 0 && dr == 0 {
            Seq::empty()
        } else {
            let nf = f + df;
            let nr = r + dr;
            if !in_board(nf, nr) {
                Seq::empty()
            } else {
                let target = Square { file: nf as u8, rank: nr as u8 };
                match self.spec_occupant(target) {
                    None => seq![target] + self.ray_from(color, nf, nr, df, dr),
                    Some(p) => if piece_color_spec(p) == Some(color) {
                        Seq::empty()
                    } else {
                        seq![target]
                    },
                }
            }
        }
    }

    /// The moves along one ray, starting from a square.
    pub open spec fn spec_ray_moves(self, from: Square, color: Color, d: (i32, i32)) -> Seq<
        Square,
    > {
        self.ray_from(color, from.file as int, from.rank as int, d.0 as int, d.1 as int)
    }

    /// The moves along the first `n` rays of `dirs`, concatenated in order.
    pub open spec fn sliding_upto(
        self,
        from: Square,
        color: Color,
        dirs: Seq<(i32, i32)>,
        n: int,
    ) -> Seq<Square>
        decreases n,
    {
        if n <= 0 || n > dirs.len() {
            Seq::empty()
        } else {
            self.sliding_upto(from, color, dirs, n - 1) + self.spec_ray_moves(
                from,
                color,
                dirs[n - 1],
            )
        }
    }

    /// The moves of a sliding piece: the rays of `dirs`, in order.
    pub open spec fn spec_sliding_moves(
        self,
        from: Square,
        color: Color,
        dirs: Seq<(i32, i32)>,
    ) -> Seq<Square> {
        self.sliding_upto(from, color, dirs, dirs.len() as int)
    }

    /// Get all valid moves for a sliding piece (queen, rook, bishop) in the
    /// given ray directions.
    pub fn sliding_piece_moves(
        &self,
        from: Square,
        color: Color,
        directions: &[(i32, i32)],
    ) -> (moves: Vec<Square>)
        requires
            self.wf(),
            from.wf(),
            forall|i: int|
                0 <= i < directions@.len() ==> valid_direction(#[trigger] directions@[i]),
        ensures
            moves@ == self.spec_sliding_moves(from, color, directions@),
    {
        let mut moves: Vec<Square> = Vec::new();
        let n = directions.len();
        for i in 0..n
            invariant
                self.wf(),
                from.wf(),
                n == directions@.len(),
                forall|k: int|
                    0 <= k < directions@.len() ==> valid_direction(#[trigger] directions@[k]),
                moves@ == self.sliding_upto(from, color, directions@, i as int),
        {
            let df = directions[i].0;
            let dr = directions[i].1;
            let mut f: i32 = from.file as i32;
            let mut r: i32 = from.rank as i32;
            loop
                invariant_except_break
                    self.wf(),
                    valid_direction((df, dr)),
                    directions@[i as int] == (df, dr),
                    0 <= i < directions@.len(),
                    0 <= f <= 7,
                    0 <= r <= 7,
                    self.sliding_upto(from, color, directions@, i as int) + self.spec_ray_moves(
                        from,
                        color,
                        (df, dr),
                    ) == moves@ + self.ray_from(color, f as int, r as int, df as int, dr as int),
                ensures
                    moves@ == self.sliding_upto(from, color, directions@, i as int)
                        + self.spec_ray_moves(from, color, (df, dr)),
                decreases edge_distance(f as int, r as int, df as int, dr as int),
            {
                let nf = f + df;
                let nr = r + dr;
                if nf < 0 || nf > 7 || nr < 0 || nr > 7 {
                    proof {
                        assert(self.ray_from(color, f as int, r as int, df as int, dr as int)
                            =~= Seq::<Square>::empty());
                        assert(moves@ + Seq::<Square>::empty() =~= moves@);
                    }
                    break ;
                }
                let target = Square { file: nf as u8, rank: nr as u8 };
                let ghost prev = moves@;
                let ghost ray_here = self.ray_from(color, f as int, r as int, df as int, dr as int);
                match self.piece_at(target) {
                    None => {
                        moves.push(target);
                        proof {
                            assert(ray_here =~= seq![target] + self.ray_from(
                                color,
                                nf as int,
                                nr as int,
                                df as int,
                                dr as int,
                            ));
                            assert(prev + ray_here =~= moves@ + self.ray_from(
                                color,
                                nf as int,
                                nr as int,
                                df as int,
                                dr as int,
                            ));
                        }
                        f = nf;
                        r = nr;
                    },
                    Some(piece) => {
                        let same_color = match Self::piece_color(piece) {
                            Some(c) => c == color,
                            None => false,
                        };
                        if same_color {
                            proof {
                                assert(ray_here =~= Seq::<Square>::empty());
                                assert(prev + ray_here =~= moves@);
                            }
                        } else {
                            moves.push(target);
                            proof {
                                assert(ray_here =~= seq![target]);
                                assert(prev + ray_here =~= moves@);
                            }
                        }
                        break ;
                    },
                }
            }
            proof {
                assert(self.sliding_upto(from, color, directions@, i + 1) == self.sliding_upto(
                    from,
                    color,
                    directions@,
                    i as int,
                ) + self.spec_ray_moves(from, color, directions@[i as int]));
            }
        }
        moves
    }

    /// The single candidate move at a fixed offset from `pos`: the target
    /// square, when it lies on the board and is not blocked by a same-color
    /// piece.
    pub open spec fn offset_move(self, pos: Square, color: Color, df: int, dr: int) -> Seq<
        Square,
    > {
        let f = pos.file + df;
        let r = pos.rank + dr;
        if in_board(f, r) && self.spec_empty_or_capturable(
            Square { file: f as u8, rank: r as u8 },
            color,
        ) {
            seq![Square { file: f as u8, rank: r as u8 }]
        } else {
            Seq::empty()
        }
    }

    /// Append the candidate move at one fixed offset, if any.
    pub(crate) fn push_offset_move(
        &self,
        pos: Square,
        color: Color,
        df: i32,
        dr: i32,
        moves: &mut Vec<Square>,
    )
        requires
            self.wf(),
            -2 <= df <= 2,
            -2 <= dr <= 2,
        ensures
            final(moves)@ == old(moves)@ + self.offset_move(pos, color, df as int, dr as int),
    {
        let f: i32 = pos.file as i32 + df;
        let r: i32 = pos.rank as i32 + dr;
        let ghost prev = moves@;
        if 0 <= f && f <= 7 && 0 <= r && r <= 7 {
            let target = Square { file: f as u8, rank: r as u8 };
            if self.is_empty_or_capturable(target, color) {
                moves.push(target);
            }
        }
        proof {
            assert(moves@ =~= prev + self.offset_move(pos, color, df as int, dr as int));
        }
    }

    /// The moves of a king standing on `pos`: the on-board Chebyshev-distance-1
    /// neighbors not occupied by a same-color piece, in scan order.
    pub open spec fn spec_king_moves(self, pos: Square, color: Color) -> Seq<Square> {
        self.offset_move(pos, color, -1, -1) + self.offset_move(pos, color, -1, 0)
            + self.offset_move(pos, color, -1, 1) + self.offset_move(pos, color, 0, -1)
            + self.offset_move(pos, color, 0, 1) + self.offset_move(pos, color, 1, -1)
            + self.offset_move(pos, color, 1, 0) + self.offset_move(pos, color, 1, 1)
    }

    /// The moves of a knight standing on `pos`: the eight L-shaped offsets,
    /// each included when on the board and not blocked by a same-color piece.
    pub open spec fn spec_knight_moves(self, pos: Square, color: Color) -> Seq<Square> {
        self.offset_move(pos, color, 2, 1) + self.offset_move(pos, color, 2, -1)
            + self.offset_move(pos, color, -2, 1) + self.offset_move(pos, color, -2, -1)
            + self.offset_move(pos, color, 1, 2) + self.offset_move(pos, color, 1, -2)
            + self.offset_move(pos, color, -1, 2) + self.offset_move(pos, color, -1, -2)
    }

    /// The forward moves of a pawn: one square ahead when empty, and also two
    /// squares ahead when the pawn has not yet moved and both squares are
    /// empty.
    pub open spec fn pawn_forward_moves(
        self,
        from: Square,
        color: Color,
        has_moved: bool,
    ) -> Seq<Square> {
        let dir = pawn_dir(color);
        let r1 = from.rank + dir;
        if in_board(from.file as int, r1) && self.spec_occupant(
            Square { file: from.file, rank: r1 as u8 },
        ) is None {
            let one = Square { file: from.file, rank: r1 as u8 };
            let r2 = from.rank + 2 * dir;
            if !has_moved && in_board(from.file as int, r2) && self.spec_occupant(
                Square { file: from.file, rank: r2 as u8 },
            ) is None {
                seq![one, Square { file: from.file, rank: r2 as u8 }]
            } else {
                seq![one]
            }
        } else {
            Seq::empty()
        }
    }

    /// The capture move of a pawn toward file offset `df`: the diagonal-forward
    /// square, included when it holds an opponent piece, or when it is empty
    /// and is the board's en-passant target.
    pub open spec fn pawn_capture_move(self, from: Square, color: Color, df: int) -> Seq<
        Square,
    > {
        let f = from.file + df;
        let r = from.rank + pawn_dir(color);
        if in_board(f, r) {
            let target = Square { file: f as u8, rank: r as u8 };
            match self.spec_occupant(target) {
                Some(p) => if piece_color_spec(p) == Some(color.spec_opposite()) {
                    seq![target]
                } else {
                    Seq::empty()
                },
                None => if self.spec_en_passant_target() == Some(target) {
                    seq![target]
                } else {
                    Seq::empty()
                },
            }
        } else {
            Seq::empty()
        }
    }

    /// The moves of a pawn: forward moves, then the two diagonal captures
    /// (toward the lower file first).
    pub open spec fn spec_pawn_moves(self, from: Square, color: Color, has_moved: bool) -> Seq<
        Square,
    > {
        self.pawn_forward_moves(from, color, has_moved) + self.pawn_capture_move(from, color, -1)
            + self.pawn_capture_move(from, color, 1)
    }

    /// Append the pawn capture move toward file offset `df`, if any.
    fn pawn_capture(&self, from: Square, color: Color, df: i32, moves: &mut Vec<Square>)
        requires
            self.wf(),
            df == -1 || df == 1,
        ensures
            final(moves)@ == old(moves)@ + self.pawn_capture_move(from, color, df as int),
    {
        let direction: i32 = match color {
            Color::White => 1,
            Color::Black => -1,
        };
        let f: i32 = from.file as i32 + df;
        let r: i32 = from.rank as i32 + direction;
        let ghost prev = moves@;
        if 0 <= f && f <= 7 && 0 <= r && r <= 7 {
            let target = Square { file: f as u8, rank: r as u8 };
            match self.piece_at(target) {
                Some(piece) => {
                    match Self::piece_color(piece) {
                        Some(c) => if c == color.opposite() {
                            moves.push(target);
                        },
                        None => {},
                    }
                },
                None => {
                    match self.en_passant_target() {
                        Some(ep) => if ep == target {
                            moves.push(target);
                        },
                        None => {},
                    }
                },
            }
        }
        proof {
            assert(moves@ =~= prev + self.pawn_capture_move(from, color, df as int));
        }
    }

    /// Get all valid pawn moves from a given square.
    pub fn pawn_moves(&self, from: Square, color: Color, has_moved: bool) -> (moves: Vec<Square>)
        requires
            self.wf(),
        ensures
            moves@ == self.spec_pawn_moves(from, color, has_moved),
    {
        let mut moves: Vec<Square> = Vec::new();
        let direction: i32 = match color {
            Color::White => 1,
            Color::Black => -1,
        };
        let r1: i32 = from.rank as i32 + direction;
        if from.file <= 7 && 0 <= r1 && r1 <= 7 {
            let one = Square { file: from.file, rank: r1 as u8 };
            match self.piece_at(one) {
                None => {
                    moves.push(one);
                    if !has_moved {
                        let r2: i32 = from.rank as i32 + 2 * direction;
                        if 0 <= r2 && r2 <= 7 {
                            let two = Square { file: from.file, rank: r2 as u8 };
                            match self.piece_at(two) {
                                None => moves.push(two),
                                Some(_) => {},
                            }
                        }
                    }
                },
                Some(_) => {},
            }
        }
        proof {
            assert(moves@ =~= self.pawn_forward_moves(from, color, has_moved));
        }
        self.pawn_capture(from, color, -1, &mut moves);
        self.pawn_capture(from, color, 1, &mut moves);
        proof {
            assert(moves@ =~= self.spec_pawn_moves(from, color, has_moved));
        }
        moves
    }
}

/// The forward rank direction of a pawn: White advances toward higher ranks,
/// Black toward lower ones.
pub open spec fn pawn_dir(color: Color) -> int {
    if color == Color::White {
        1
    } else {
        -1
    }
}

/// The square at the given integer coordinates.
pub open spec fn square_at(f: int, r: int) -> Square {
    Square { file: f as u8, rank: r as u8 }
}

/// The square `k` steps along direction `d` from `from`.
pub open spec fn ray_square(from: Square, d: (i32, i32), k: int) -> Square {
    square_at(from.file + k * d.0, from.rank + k * d.1)
}

/// On an otherwise empty board a ray is cut only by the board edge: the
/// number of moves it generates equals the number of squares between the
/// slider and the edge in that direction.
pub proof fn lemma_unblocked_ray_length(board: Board, color: Color, from: Square, d: (i32, i32))
    requires
        from.wf(),
        valid_direction(d),
        forall|sq: Square| #[trigger] board.spec_occupant(sq) is None,
    ensures
        board.spec_ray_moves(from, color, d).len() == edge_distance(
            from.file as int,
            from.rank as int,
            d.0 as int,
            d.1 as int,
        ),
{
    lemma_empty_ray_from(board, color, from.file as int, from.rank as int, d.0 as int, d.1 as int);
}

proof fn lemma_empty_ray_from(board: Board, color: Color, f: int, r: int, df: int, dr: int)
    requires
        in_board(f, r),
        -1 <= df <= 1,
        -1 <= dr <= 1,
        !(df == 0 && dr == 0),
        forall|sq: Square| #[trigger] board.spec_occupant(sq) is None,
    ensures
        board.ray_from(color, f, r, df, dr).len() == edge_distance(f, r, df, dr),
    decreases edge_distance(f, r, df, dr),
{
    let nf = f + df;
    let nr = r + dr;
    if in_board(nf, nr) {
        lemma_empty_ray_from(board, color, nf, nr, df, dr);
    }
}

/// A ray is truncated by its first blocker.  When the squares strictly
/// between the slider and distance `k` along the ray are empty and the
/// square at distance `k` is occupied, an opponent piece there leaves
/// exactly `k` moves, the capture square included as the last one, while a
/// same-color piece leaves exactly the `k - 1` squares in front of it.
pub proof fn lemma_blocked_ray(board: Board, color: Color, from: Square, d: (i32, i32), k: int)
    requires
        from.wf(),
        valid_direction(d),
        1 <= k,
        in_board(from.file + k * d.0, from.rank + k * d.1),
        forall|i: int| 1 <= i < k ==> board.spec_occupant(#[trigger] ray_square(from, d, i)) is None,
        board.spec_occupant(ray_square(from, d, k)) is Some,
    ensures
        piece_color_spec(board.spec_occupant(ray_square(from, d, k)).unwrap()) != Some(color)
            ==> board.spec_ray_moves(from, color, d) == Seq::new(
            k as nat,
            (|i: int| ray_square(from, d, i + 1)),
        ),
        piece_color_spec(board.spec_occupant(ray_square(from, d, k)).unwrap()) == Some(color)
            ==> board.spec_ray_moves(from, color, d) == Seq::new(
            (k - 1) as nat,
            (|i: int| ray_square(from, d, i + 1)),
        ),
{
    let f = from.file as int;
    let r = from.rank as int;
    let df = d.0 as int;
    let dr = d.1 as int;
    assert forall|i: int|
        1 <= i < k implies board.spec_occupant(
        #[trigger] square_at(f + i * df, r + i * dr),
    ) is None by {
        assert(square_at(f + i * df, r + i * dr) == ray_square(from, d, i));
        assert(board.spec_occupant(ray_square(from, d, i)) is None);
    }
    assert(square_at(f + k * df, r + k * dr) == ray_square(from, d, k));
    lemma_blocked_ray_from(board, color, f, r, df, dr, k);
    if piece_color_spec(board.spec_occupant(ray_square(from, d, k)).unwrap()) != Some(color) {
        assert(board.spec_ray_moves(from, color, d) =~= Seq::new(
            k as nat,
            (|i: int| ray_square(from, d, i + 1)),
        ));
    } else {
        assert(board.spec_ray_moves(from, color, d) =~= Seq::new(
            (k - 1) as nat,
            (|i: int| ray_square(from, d, i + 1)),
        ));
    }
}

#[verifier::rlimit(50)]
proof fn lemma_blocked_ray_from(
    board: Board,
    color: Color,
    f: int,
    r: int,
    df: int,
    dr: int,
    k: int,
)
    requires
        in_board(f, r),
        -1 <= df <= 1,
        -1 <= dr <= 1,
        !(df == 0 && dr == 0),
        1 <= k,
        in_board(f + k * df, r + k * dr),
        forall|i: int|
            1 <= i < k ==> board.spec_occupant(#[trigger] square_at(f + i * df, r + i * dr)) is None,
        board.spec_occupant(square_at(f + k * df, r + k * dr)) is Some,
    ensures
        piece_color_spec(board.spec_occupant(square_at(f + k * df, r + k * dr)).unwrap()) != Some(
            color,
        ) ==> board.ray_from(color, f, r, df, dr) == Seq::new(
            k as nat,
            (|i: int| square_at(f + (i + 1) * df, r + (i + 1) * dr)),
        ),
        piece_color_spec(board.spec_occupant(square_at(f + k * df, r + k * dr)).unwrap()) == Some(
            color,
        ) ==> board.ray_from(color, f, r, df, dr) == Seq::new(
            (k - 1) as nat,
            (|i: int| square_at(f + (i + 1) * df, r + (i + 1) * dr)),
        ),
    decreases k,
{
    let nf = f + df;
    let nr = r + dr;
    assert(1 * df == df && 1 * dr == dr) by (nonlinear_arith);
    if k == 1 {
        assert(in_board(nf, nr));
        let blocker = board.spec_occupant(square_at(nf, nr));
        if piece_color_spec(blocker.unwrap()) != Some(color) {
            assert(board.ray_from(color, f, r, df, dr) =~= Seq::new(
                1nat,
                (|i: int| square_at(f + (i + 1) * df, r + (i + 1) * dr)),
            ));
        } else {
            assert(board.ray_from(color, f, r, df, dr) =~= Seq::new(
                0nat,
                (|i: int| square_at(f + (i + 1) * df, r + (i + 1) * dr)),
            ));
        }
    } else {
        // The square one step ahead lies between the slider and the blocker,
        // so it is on the board and empty.
        assert(in_board(nf, nr)) by {
            lemma_between_in_board(f, df, k, 1);
            lemma_between_in_board(r, dr, k, 1);
        }
        assert(board.spec_occupant(square_at(nf, nr)) is None);
        // Shift the hypotheses one step along the ray for the recursive call.
        assert forall|i: int|
            1 <= i < k - 1 implies board.spec_occupant(
            #[trigger] square_at(nf + i * df, nr + i * dr),
        ) is None by {
            assert((i + 1) * df == i * df + df && (i + 1) * dr == i * dr + dr)
                by (nonlinear_arith);
            assert(square_at(nf + i * df, nr + i * dr) == square_at(
                f + (i + 1) * df,
                r + (i + 1) * dr,
            ));
        }
        assert(k * df == (k - 1) * df + df && k * dr == (k - 1) * dr + dr) by (nonlinear_arith);
        assert(square_at(nf + (k - 1) * df, nr + (k - 1) * dr) == square_at(
            f + k * df,
            r + k * dr,
        ));
        lemma_blocked_ray_from(board, color, nf, nr, df, dr, k - 1);
        let tail_opp = Seq::new((k - 1) as nat, (|i: int| square_at(nf + (i + 1) * df, nr + (i + 1) * dr)));
        let tail_same = Seq::new((k - 2) as nat, (|i: int| square_at(nf + (i + 1) * df, nr + (i + 1) * dr)));
        let head = seq![square_at(nf, nr)];
        let blocker = board.spec_occupant(square_at(f + k * df, r + k * dr));
        assert(board.ray_from(color, f, r, df, dr) == head + board.ray_from(
            color,
            nf,
            nr,
            df,
            dr,
        ));
        if piece_color_spec(blocker.unwrap()) != Some(color) {
            assert(head + tail_opp =~= Seq::new(
                k as nat,
                (|i: int| square_at(f + (i + 1) * df, r + (i + 1) * dr)),
            )) by {
                assert forall|j: int| 0 <= j < k - 1 implies #[trigger] tail_opp[j] == square_at(
                    f + (j + 2) * df,
                    r + (j + 2) * dr,
                ) by {
                    assert((j + 2) * df == (j + 1) * df + df && (j + 2) * dr == (j + 1) * dr + dr)
                        by (nonlinear_arith);
                }
            }
        } else {
            assert(head + tail_same =~= Seq::new(
                (k - 1) as nat,
                (|i: int| square_at(f + (i + 1) * df, r + (i + 1) * dr)),
            )) by {
                assert forall|j: int| 0 <= j < k - 2 implies #[trigger] tail_same[j] == square_at(
                    f + (j + 2) * df,
                    r + (j + 2) * dr,
                ) by {
                    assert((j + 2) * df == (j + 1) * df + df && (j + 2) * dr == (j + 1) * dr + dr)
                        by (nonlinear_arith);
                }
            }
        }
    }
}

/// A coordinate strictly between two on-board coordinates along one axis of
/// a unit direction is itself on that axis's board range.
proof fn lemma_between_in_board(x: int, dx: int, k: int, j: int)
    requires
        0 <= x <= 7,
        -1 <= dx <= 1,
        0 <= x + k * dx <= 7,
        0 <= j <= k,
    ensures
        0 <= x + j * dx <= 7,
{
    if dx == 0 {
        assert(j * dx == 0 && k * dx == 0) by (nonlinear_arith)
            requires
                dx == 0,
        ;
    } else if dx == 1 {
        assert(j * dx == j && k * dx == k) by (nonlinear_arith)
            requires
                dx == 1,
        ;
    } else {
        assert(j * dx == -j && k * dx == -k) by (nonlinear_arith)
            requires
                dx == -1,
        ;
    }
}

} // verus!

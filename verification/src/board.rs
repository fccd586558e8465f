//! The board: per-color and per-kind masks overlaid into one occupancy model.

use vstd::prelude::*;
use crate::bitboard::BitBoard;
use crate::piece::Color;
use crate::piece::Piece;
use crate::piece::PieceKind;
use crate::square::Square;

verus! {

/// Represents the board and all the pieces on it.
///
/// A square is occupied by a piece exactly when both the piece's color mask
/// and its kind mask hold the square's bit.
#[derive(Debug, Clone, Copy, PartialEq, Eq, Hash, Structural)]
pub struct Board {
    /// Squares claimed by white pieces.
    white: BitBoard,
    /// Squares claimed by black pieces.
    black: BitBoard,
    /// Squares claimed by pawns.
    pawns: BitBoard,
    /// Squares claimed by knights.
    knights: BitBoard,
    /// Squares claimed by bishops.
    bishops: BitBoard,
    /// Squares claimed by rooks.
    rooks: BitBoard,
    /// Squares claimed by queens.
    queens: BitBoard,
    /// Squares claimed by kings.
    kings: BitBoard,
}

impl Board {
    /// The mask of squares the given color claims.
    pub closed spec fn spec_color_bb(self, color: Color) -> BitBoard {
        match color {
            Color::White => self.white,
            Color::Black => self.black,
        }
    }

    /// The mask of squares the given piece kind claims.
    pub closed spec fn spec_piece_bb(self, kind: PieceKind) -> BitBoard {
        match kind {
            PieceKind::Pawn => self.pawns,
            PieceKind::Knight => self.knights,
            PieceKind::Bishop => self.bishops,
            PieceKind::Rook => self.rooks,
            PieceKind::Queen => self.queens,
            PieceKind::King => self.kings,
        }
    }

    /// The color claiming square index `i`: the first color whose mask holds
    /// the bit, absent when none does.
    pub open spec fn color_at(self, i: u64) -> Option<Color> {
        if self.spec_color_bb(Color::White).spec_get(i) {
            Some(Color::White)
        } else if self.spec_color_bb(Color::Black).spec_get(i) {
            Some(Color::Black)
        } else {
            None
        }
    }

    /// The kind claiming square index `i`: the first kind whose mask holds
    /// the bit, absent when none does.
    pub open spec fn kind_at(self, i: u64) -> Option<PieceKind> {
        if self.spec_piece_bb(PieceKind::Pawn).spec_get(i) {
            Some(PieceKind::Pawn)
        } else if self.spec_piece_bb(PieceKind::Knight).spec_get(i) {
            Some(PieceKind::Knight)
        } else if self.spec_piece_bb(PieceKind::Bishop).spec_get(i) {
            Some(PieceKind::Bishop)
        } else if self.spec_piece_bb(PieceKind::Rook).spec_get(i) {
            Some(PieceKind::Rook)
        } else if self.spec_piece_bb(PieceKind::Queen).spec_get(i) {
            Some(PieceKind::Queen)
        } else if self.spec_piece_bb(PieceKind::King).spec_get(i) {
            Some(PieceKind::King)
        } else {
            None
        }
    }

    /// The piece occupying square index `i`: present exactly when a color
    /// and a kind both claim the square.
    pub open spec fn piece_at(self, i: u64) -> Option<Piece> {
        match (self.color_at(i), self.kind_at(i)) {
            (Some(color), Some(kind)) => Some(Piece { color, kind }),
            _ => None,
        }
    }

    /// How many color masks claim square index `i`.
    pub open spec fn color_claims(self, i: u64) -> int {
        (if self.spec_color_bb(Color::White).spec_get(i) {
            1int
        } else {
            0int
        }) + (if self.spec_color_bb(Color::Black).spec_get(i) {
            1int
        } else {
            0int
        })
    }

    /// How many kind masks claim square index `i`.
    pub open spec fn kind_claims(self, i: u64) -> int {
        (if self.spec_piece_bb(PieceKind::Pawn).spec_get(i) {
            1int
        } else {
            0int
        }) + (if self.spec_piece_bb(PieceKind::Knight).spec_get(i) {
            1int
        } else {
            0int
        }) + (if self.spec_piece_bb(PieceKind::Bishop).spec_get(i) {
            1int
        } else {
            0int
        }) + (if self.spec_piece_bb(PieceKind::Rook).spec_get(i) {
            1int
        } else {
            0int
        }) + (if self.spec_piece_bb(PieceKind::Queen).spec_get(i) {
            1int
        } else {
            0int
        }) + (if self.spec_piece_bb(PieceKind::King).spec_get(i) {
            1int
        } else {
            0int
        })
    }

    /// No color mask and no kind mask claims square index `i`.
    pub open spec fn is_empty_at(self, i: u64) -> bool {
        self.color_claims(i) == 0 && self.kind_claims(i) == 0
    }

    /// The consistency invariant at square index `i`: at most one color and
    /// at most one kind claims the square, and a color claims it exactly
    /// when a kind does.
    pub open spec fn wf_at(self, i: u64) -> bool {
        &&& self.color_claims(i) <= 1
        &&& self.kind_claims(i) <= 1
        &&& (self.color_claims(i) == 0 <==> self.kind_claims(i) == 0)
    }

    /// The consistency invariant of the whole board.
    pub open spec fn wf(self) -> bool {
        forall|i: u64| i < 64 ==> #[trigger] self.wf_at(i)
    }

    /// Get the color at a certain square.
    pub fn get_color(&self, square: Square) -> (r: Option<Color>)
        requires
            square.wf(),
        ensures
            r == self.color_at(square@ as u64),
    {
        if self.white.get(square) {
            Some(Color::White)
        } else if self.black.get(square) {
            Some(Color::Black)
        } else {
            None
        }
    }

    /// Get the piece type at a certain square.
    pub fn get_piece_kind(&self, square: Square) -> (r: Option<PieceKind>)
        requires
            square.wf(),
        ensures
            r == self.kind_at(square@ as u64),
    {
        if self.pawns.get(square) {
            Some(PieceKind::Pawn)
        } else if self.knights.get(square) {
            Some(PieceKind::Knight)
        } else if self.bishops.get(square) {
            Some(PieceKind::Bishop)
        } else if self.rooks.get(square) {
            Some(PieceKind::Rook)
        } else if self.queens.get(square) {
            Some(PieceKind::Queen)
        } else if self.kings.get(square) {
            Some(PieceKind::King)
        } else {
            None
        }
    }

    /// Get the piece at a certain square.
    pub fn get(&self, square: Square) -> (r: Option<Piece>)
        requires
            square.wf(),
        ensures
            r == self.piece_at(square@ as u64),
    {
        match (self.get_color(square), self.get_piece_kind(square)) {
            (Some(color), Some(kind)) => Some(Piece { color, kind }),
            _ => None,
        }
    }

    /// Get the bitboard associated with a certain piece.
    pub fn get_bb(&self, piece: Piece) -> (r: BitBoard)
        ensures
            r.0 == self.spec_piece_bb(piece.kind).0 & self.spec_color_bb(piece.color).0,
            self.wf() ==> forall|i: u64|
                i < 64 ==> (#[trigger] r.spec_get(i) <==> self.piece_at(i) == Some(piece)),
    {
        let r = self.get_piece_bb(piece.kind).and(self.get_color_bb(piece.color));
        proof {
            if self.wf() {
                assert forall|i: u64| i < 64 implies (#[trigger] r.spec_get(i) <==> self.piece_at(
                    i,
                ) == Some(piece)) by {
                    assert(self.wf_at(i));
                }
            }
        }
        r
    }

    /// Get the bitboard associated with a certain piece kind.
    pub fn get_piece_bb(&self, piece: PieceKind) -> (r: BitBoard)
        ensures
            r == self.spec_piece_bb(piece),
    {
        match piece {
            PieceKind::Pawn => self.pawns,
            PieceKind::Knight => self.knights,
            PieceKind::Bishop => self.bishops,
            PieceKind::Rook => self.rooks,
            PieceKind::Queen => self.queens,
            PieceKind::King => self.kings,
        }
    }

    /// Get an exclusive reference to the bitboard associated with a certain
    /// piece kind.
    pub fn get_piece_bb_mut(&mut self, piece: PieceKind) -> (r: &mut BitBoard)
        ensures
            *r == old(self).spec_piece_bb(piece),
            final(self).spec_piece_bb(piece) == *final(r),
            forall|k: PieceKind|
                k != piece ==> #[trigger] final(self).spec_piece_bb(k) == old(self).spec_piece_bb(
                    k,
                ),
            forall|c: Color|
                #[trigger] final(self).spec_color_bb(c) == old(self).spec_color_bb(c),
    {
        match piece {
            PieceKind::Pawn => &mut self.pawns,
            PieceKind::Knight => &mut self.knights,
            PieceKind::Bishop => &mut self.bishops,
            PieceKind::Rook => &mut self.rooks,
            PieceKind::Queen => &mut self.queens,
            PieceKind::King => &mut self.kings,
        }
    }

    /// Get the bitboard associated with a certain color.
    pub fn get_color_bb(&self, color: Color) -> (r: BitBoard)
        ensures
            r == self.spec_color_bb(color),
    {
        match color {
            Color::White => self.white,
            Color::Black => self.black,
        }
    }

    /// Get an exclusive reference to the bitboard associated with a certain
    /// color.
    pub fn get_color_bb_mut(&mut self, color: Color) -> (r: &mut BitBoard)
        ensures
            *r == old(self).spec_color_bb(color),
            final(self).spec_color_bb(color) == *final(r),
            forall|c: Color|
                c != color ==> #[trigger] final(self).spec_color_bb(c) == old(self).spec_color_bb(
                    c,
                ),
            forall|k: PieceKind|
                #[trigger] final(self).spec_piece_bb(k) == old(self).spec_piece_bb(k),
    {
        match color {
            Color::White => &mut self.white,
            Color::Black => &mut self.black,
        }
    }

    /// Occupied squares among the indices below `n`.
    pub open spec fn occupied_below(self, n: int) -> int
        decreases n,
    {
        if n <= 0 {
            0
        } else {
            self.occupied_below(n - 1) + if self.piece_at((n - 1) as u64) is Some {
                1int
            } else {
                0int
            }
        }
    }

    /// How many of the 64 squares are occupied.
    pub open spec fn occupied_count(self) -> int {
        self.occupied_below(64)
    }

    /// Set a piece on the board.
    ///
    /// With a piece, the square's bit is set in that piece's color and kind
    /// masks and nothing is cleared first: callers must ensure the square
    /// was empty, or clear it first, to keep the board consistent. With no
    /// piece, the square's bit is cleared in every mask.
    pub fn set(&mut self, square: Square, piece: Option<Piece>)
        requires
            square.wf(),
        ensures
            piece matches Some(p) ==> forall|c: Color, j: u64|
                j < 64 ==> #[trigger] final(self).spec_color_bb(c).spec_get(j) == (old(
                    self,
                ).spec_color_bb(c).spec_get(j) || (c == p.color && j == square@ as u64)),
            piece matches Some(p) ==> forall|k: PieceKind, j: u64|
                j < 64 ==> #[trigger] final(self).spec_piece_bb(k).spec_get(j) == (old(
                    self,
                ).spec_piece_bb(k).spec_get(j) || (k == p.kind && j == square@ as u64)),
            piece is None ==> forall|c: Color, j: u64|
                j < 64 ==> #[trigger] final(self).spec_color_bb(c).spec_get(j) == (old(
                    self,
                ).spec_color_bb(c).spec_get(j) && j != square@ as u64),
            piece is None ==> forall|k: PieceKind, j: u64|
                j < 64 ==> #[trigger] final(self).spec_piece_bb(k).spec_get(j) == (old(
                    self,
                ).spec_piece_bb(k).spec_get(j) && j != square@ as u64),
            forall|j: u64|
                j < 64 && j != square@ as u64 ==> #[trigger] final(self).piece_at(j) == old(
                    self,
                ).piece_at(j),
            piece is None ==> final(self).piece_at(square@ as u64) is None,
            piece is None && old(self).is_empty_at(square@ as u64) ==> forall|j: u64|
                j < 64 ==> #[trigger] final(self).piece_at(j) == old(self).piece_at(j),
            piece is None && old(self).wf() ==> final(self).wf(),
            old(self).wf() && old(self).is_empty_at(square@ as u64) ==> (piece matches Some(p)
                ==> final(self).wf() && final(self).piece_at(square@ as u64) == Some(p)),
    {
        match piece {
            Some(piece) => {
                self.get_color_bb_mut(piece.color).set(square, true);
                self.get_piece_bb_mut(piece.kind).set(square, true);
                proof {
                    lemma_set_some_laws(*old(self), *self, square, piece);
                }
            },
            None => {
                self.white.set(square, false);
                self.black.set(square, false);
                self.pawns.set(square, false);
                self.knights.set(square, false);
                self.bishops.set(square, false);
                self.rooks.set(square, false);
                self.queens.set(square, false);
                self.kings.set(square, false);
                proof {
                    lemma_set_none_laws(*old(self), *self, square);
                }
            },
        }
    }
}

impl Board {
    /// The piece the canonical starting position places on square index
    /// `i`: white on the first two ranks, black on the last two, with the
    /// classical back-rank arrangement behind a rank of pawns on each side.
    pub open spec fn spec_starting_piece(i: u64) -> Option<Piece> {
        if i >= 64 {
            None
        } else {
            let kind = if 8 <= i < 16 || 48 <= i < 56 {
                Some(PieceKind::Pawn)
            } else if i == 1 || i == 6 || i == 57 || i == 62 {
                Some(PieceKind::Knight)
            } else if i == 2 || i == 5 || i == 58 || i == 61 {
                Some(PieceKind::Bishop)
            } else if i == 0 || i == 7 || i == 56 || i == 63 {
                Some(PieceKind::Rook)
            } else if i == 3 || i == 59 {
                Some(PieceKind::Queen)
            } else if i == 4 || i == 60 {
                Some(PieceKind::King)
            } else {
                None
            };
            match kind {
                Some(kind) => Some(
                    Piece {
                        color: if i < 16 {
                            Color::White
                        } else {
                            Color::Black
                        },
                        kind,
                    },
                ),
                None => None,
            }
        }
    }

    /// Generate the starting board position.
    pub fn starting_position() -> (r: Board)
        ensures
            r.spec_color_bb(Color::White).0 == 0x0000_0000_0000_FFFFu64,
            r.spec_color_bb(Color::Black).0 == 0xFFFF_0000_0000_0000u64,
            r.spec_piece_bb(PieceKind::Pawn).0 == 0x00FF_0000_0000_FF00u64,
            r.spec_piece_bb(PieceKind::Knight).0 == 0x4200_0000_0000_0042u64,
            r.spec_piece_bb(PieceKind::Bishop).0 == 0x2400_0000_0000_0024u64,
            r.spec_piece_bb(PieceKind::Rook).0 == 0x8100_0000_0000_0081u64,
            r.spec_piece_bb(PieceKind::Queen).0 == 0x0800_0000_0000_0008u64,
            r.spec_piece_bb(PieceKind::King).0 == 0x1000_0000_0000_0010u64,
            r.wf(),
            r.occupied_count() == 32,
            forall|i: u64| i < 64 ==> #[trigger] r.piece_at(i) == Board::spec_starting_piece(i),
            r.piece_at(0) == Some(Piece { color: Color::White, kind: PieceKind::Rook }),
            r.piece_at(4) == Some(Piece { color: Color::White, kind: PieceKind::King }),
            r.piece_at(59) == Some(Piece { color: Color::Black, kind: PieceKind::Queen }),
            r.piece_at(60) == Some(Piece { color: Color::Black, kind: PieceKind::King }),
    {
        let r = Board {
            white: BitBoard(0x0000_0000_0000_FFFF),
            black: BitBoard(0xFFFF_0000_0000_0000),
            pawns: BitBoard(0x00FF_0000_0000_FF00),
            knights: BitBoard(0x4200_0000_0000_0042),
            bishops: BitBoard(0x2400_0000_0000_0024),
            rooks: BitBoard(0x8100_0000_0000_0081),
            queens: BitBoard(0x0800_0000_0000_0008),
            kings: BitBoard(0x1000_0000_0000_0010),
        };
        proof {
            lemma_starting_masks();
            assert forall|i: u64| i < 64 implies #[trigger] r.wf_at(i) by {}
            assert forall|i: u64| i < 64 implies #[trigger] r.piece_at(i)
                == Board::spec_starting_piece(i) by {}
            assert forall|i: u64| i < 64 implies (#[trigger] r.piece_at(i) is Some <==> (i < 16
                || 48 <= i)) by {}
            lemma_occupied_split(r, 64);
        }
        r
    }
}

impl Board {
    /// The three-character cell a square contributes to the textual dump:
    /// the piece's glyph between spaces, or blank when the square is empty.
    pub open spec fn spec_cell(piece: Option<Piece>) -> Seq<char> {
        match piece {
            Some(p) => seq![' ', p.spec_char(), ' '],
            None => seq![' ', ' ', ' '],
        }
    }

    /// The first `n` cells of the row of squares with rank `r`, in file
    /// order left to right.
    pub open spec fn spec_row_cells(self, r: u64, n: int) -> Seq<char>
        decreases n,
    {
        if n <= 0 {
            Seq::empty()
        } else {
            self.spec_row_cells(r, n - 1) + Board::spec_cell(
                self.piece_at((r * 8 + n - 1) as u64),
            )
        }
    }

    /// One printed row: the eight cells of rank `r` and a newline.
    pub open spec fn spec_row(self, r: u64) -> Seq<char> {
        self.spec_row_cells(r, 8) + seq!['\n']
    }

    /// The printed rows for ranks `r` down to `0`.
    pub open spec fn spec_rows_down(self, r: int) -> Seq<char>
        decreases r + 1,
    {
        if r < 0 {
            Seq::empty()
        } else {
            self.spec_row(r as u64) + self.spec_rows_down(r - 1)
        }
    }

    /// The whole textual dump: a header line, then the eight rows from
    /// rank index `7` at the top down to rank index `0`.
    pub open spec fn spec_render(self) -> Seq<char> {
        " a  b  c  d  e  f  g  h\n"@ + self.spec_rows_down(7)
    }

    /// Render the board as a human-readable grid.
    pub fn to_string(&self) -> (r: String)
        ensures
            r@ == self.spec_render(),
    {
        let mut out = String::new();
        out.append(" a  b  c  d  e  f  g  h\n");
        let mut rank: u8 = 8;
        while rank > 0
            invariant
                rank <= 8,
                out@ + self.spec_rows_down(rank - 1) == self.spec_render(),
            decreases rank,
        {
            rank = rank - 1;
            let ghost row_start = out@;
            let mut file: u8 = 0;
            while file < 8
                invariant
                    file <= 8,
                    rank < 8,
                    out@ == row_start + self.spec_row_cells(rank as u64, file as int),
                decreases 8 - file,
            {
                let sq = Square::from_index_unchecked(rank * 8 + file);
                let cell = cell_str(self.get(sq));
                out.append(cell);
                proof {
                    assert(out@ =~= row_start + self.spec_row_cells(rank as u64, file + 1));
                }
                file = file + 1;
            }
            out.append("\n");
            proof {
                reveal_strlit("\n");
                assert(out@ =~= row_start + self.spec_row(rank as u64));
                assert(out@ + self.spec_rows_down(rank - 1) =~= row_start + self.spec_rows_down(
                    rank as int,
                ));
            }
        }
        proof {
            assert(out@ =~= self.spec_render());
        }
        out
    }
}

/// The literal cell for each possible occupant of a square.
fn cell_str(piece: Option<Piece>) -> (r: &'static str)
    ensures
        r@ == Board::spec_cell(piece),
{
    match piece {
        None => {
            proof {
                reveal_strlit("   ");
                assert("   "@ =~= Board::spec_cell(piece));
            }
            "   "
        },
        Some(p) => match (p.color, p.kind) {
            (Color::White, PieceKind::Pawn) => {
                proof {
                    reveal_strlit(" P ");
                    assert(" P "@ =~= Board::spec_cell(piece));
                }
                " P "
            },
            (Color::White, PieceKind::Knight) => {
                proof {
                    reveal_strlit(" N ");
                    assert(" N "@ =~= Board::spec_cell(piece));
                }
                " N "
            },
            (Color::White, PieceKind::Bishop) => {
                proof {
                    reveal_strlit(" B ");
                    assert(" B "@ =~= Board::spec_cell(piece));
                }
                " B "
            },
            (Color::White, PieceKind::Rook) => {
                proof {
                    reveal_strlit(" R ");
                    assert(" R "@ =~= Board::spec_cell(piece));
                }
                " R "
            },
            (Color::White, PieceKind::Queen) => {
                proof {
                    reveal_strlit(" Q ");
                    assert(" Q "@ =~= Board::spec_cell(piece));
                }
                " Q "
            },
            (Color::White, PieceKind::King) => {
                proof {
                    reveal_strlit(" K ");
                    assert(" K "@ =~= Board::spec_cell(piece));
                }
                " K "
            },
            (Color::Black, PieceKind::Pawn) => {
                proof {
                    reveal_strlit(" p ");
                    assert(" p "@ =~= Board::spec_cell(piece));
                }
                " p "
            },
            (Color::Black, PieceKind::Knight) => {
                proof {
                    reveal_strlit(" n ");
                    assert(" n "@ =~= Board::spec_cell(piece));
                }
                " n "
            },
            (Color::Black, PieceKind::Bishop) => {
                proof {
                    reveal_strlit(" b ");
                    assert(" b "@ =~= Board::spec_cell(piece));
                }
                " b "
            },
            (Color::Black, PieceKind::Rook) => {
                proof {
                    reveal_strlit(" r ");
                    assert(" r "@ =~= Board::spec_cell(piece));
                }
                " r "
            },
            (Color::Black, PieceKind::Queen) => {
                proof {
                    reveal_strlit(" q ");
                    assert(" q "@ =~= Board::spec_cell(piece));
                }
                " q "
            },
            (Color::Black, PieceKind::King) => {
                proof {
                    reveal_strlit(" k ");
                    assert(" k "@ =~= Board::spec_cell(piece));
                }
                " k "
            },
        },
    }
}

proof fn lemma_row_cells_len(b: Board, r: u64, n: int)
    requires
        0 <= n <= 8,
    ensures
        b.spec_row_cells(r, n).len() == 3 * n,
    decreases n,
{
    if n > 0 {
        lemma_row_cells_len(b, r, n - 1);
    }
}

proof fn lemma_row_cell_at(b: Board, r: u64, n: int, f: int)
    requires
        0 <= f < n <= 8,
    ensures
        b.spec_row_cells(r, n).subrange(3 * f, 3 * f + 3) == Board::spec_cell(
            b.piece_at((r * 8 + f) as u64),
        ),
    decreases n,
{
    lemma_row_cells_len(b, r, n - 1);
    if f == n - 1 {
        assert(b.spec_row_cells(r, n).subrange(3 * f, 3 * f + 3) =~= Board::spec_cell(
            b.piece_at((r * 8 + f) as u64),
        ));
    } else {
        lemma_row_cell_at(b, r, n - 1, f);
        assert(b.spec_row_cells(r, n).subrange(3 * f, 3 * f + 3) =~= b.spec_row_cells(
            r,
            n - 1,
        ).subrange(3 * f, 3 * f + 3));
    }
}

proof fn lemma_rows_down_len(b: Board, r: int)
    requires
        -1 <= r <= 7,
    ensures
        b.spec_rows_down(r).len() == (r + 1) * 25,
    decreases r + 1,
{
    if r >= 0 {
        lemma_rows_down_len(b, r - 1);
        lemma_row_cells_len(b, r as u64, 8);
    }
}

proof fn lemma_rows_down_at(b: Board, r: int, q: int)
    requires
        0 <= q <= r <= 7,
    ensures
        b.spec_rows_down(r).subrange((r - q) * 25, (r - q) * 25 + 25) == b.spec_row(q as u64),
    decreases r,
{
    lemma_row_cells_len(b, r as u64, 8);
    lemma_rows_down_len(b, r - 1);
    lemma_row_cells_len(b, q as u64, 8);
    if q == r {
        assert(b.spec_rows_down(r).subrange(0, 25) =~= b.spec_row(r as u64));
    } else {
        lemma_rows_down_at(b, r - 1, q);
        assert(b.spec_rows_down(r).subrange((r - q) * 25, (r - q) * 25 + 25)
            =~= b.spec_rows_down(r - 1).subrange((r - 1 - q) * 25, (r - 1 - q) * 25 + 25));
    }
}

/// Display stability, cell by cell: the rendered dump is 225 characters,
/// opening with the header line; the row of rank `r` sits 25 characters per
/// rank below it, ends with a newline, and its three-character cell for
/// file `f` is exactly the glyph cell of the piece occupying that square.
#[verifier::rlimit(100)]
pub proof fn lemma_render_grid(b: Board, r: u64, f: u64)
    requires
        r < 8,
        f < 8,
    ensures
        b.spec_render().len() == 224,
        b.spec_render().subrange(0, 24) == " a  b  c  d  e  f  g  h\n"@,
        b.spec_render().subrange(
            24 + (7 - r) * 25 + 3 * f,
            24 + (7 - r) * 25 + 3 * f + 3,
        ) == Board::spec_cell(b.piece_at((r * 8 + f) as u64)),
        b.spec_render()[24 + (7 - r) * 25 + 24] == '\n',
{
    reveal_strlit(" a  b  c  d  e  f  g  h\n");
    lemma_rows_down_len(b, 7);
    lemma_rows_down_at(b, 7, r as int);
    lemma_row_cells_len(b, r, 8);
    lemma_row_cell_at(b, r, 8, f as int);
    assert(" a  b  c  d  e  f  g  h\n"@.len() == 24);
    assert(b.spec_render().len() == 224);
    assert(b.spec_render().subrange(0, 24) =~= " a  b  c  d  e  f  g  h\n"@);
    let rowstart: int = 24 + (7 - r) * 25;
    assert(b.spec_render().subrange(rowstart, rowstart + 25) =~= b.spec_rows_down(7).subrange(
        (7 - r) * 25,
        (7 - r) * 25 + 25,
    ));
    assert(b.spec_render().subrange(rowstart, rowstart + 25) == b.spec_row(r));
    assert(b.spec_row(r).subrange(3 * f, 3 * f + 3) =~= b.spec_row_cells(r, 8).subrange(
        3 * f,
        3 * f + 3,
    ));
    assert(b.spec_render().subrange(rowstart + 3 * f, rowstart + 3 * f + 3) =~= b.spec_row(
        r,
    ).subrange(3 * f, 3 * f + 3));
    assert(b.spec_render()[rowstart + 24] == b.spec_row(r)[24]);
}

impl Default for Board {
    /// An empty board: every mask zero, every square unoccupied.
    fn default() -> (r: Board)
        ensures
            forall|c: Color| (#[trigger] r.spec_color_bb(c)).0 == 0,
            forall|k: PieceKind| (#[trigger] r.spec_piece_bb(k)).0 == 0,
            r.wf(),
            forall|i: u64| i < 64 ==> #[trigger] r.is_empty_at(i),
            forall|i: u64| i < 64 ==> #[trigger] r.piece_at(i) is None,
    {
        let r = Board {
            white: BitBoard(0),
            black: BitBoard(0),
            pawns: BitBoard(0),
            knights: BitBoard(0),
            bishops: BitBoard(0),
            rooks: BitBoard(0),
            queens: BitBoard(0),
            kings: BitBoard(0),
        };
        proof {
            lemma_zero_bits();
        }
        r
    }
}

/// Which bits each starting-position mask holds.
proof fn lemma_starting_masks()
    by (bit_vector)
    ensures
        forall|i: u64|
            i < 64 ==> (((0x0000_0000_0000_FFFFu64 >> i) & 1 == 1) <==> i < 16),
        forall|i: u64|
            i < 64 ==> (((0xFFFF_0000_0000_0000u64 >> i) & 1 == 1) <==> 48 <= i),
        forall|i: u64|
            i < 64 ==> (((0x00FF_0000_0000_FF00u64 >> i) & 1 == 1) <==> (8 <= i < 16 || 48 <= i
                < 56)),
        forall|i: u64|
            i < 64 ==> (((0x4200_0000_0000_0042u64 >> i) & 1 == 1) <==> (i == 1 || i == 6 || i
                == 57 || i == 62)),
        forall|i: u64|
            i < 64 ==> (((0x2400_0000_0000_0024u64 >> i) & 1 == 1) <==> (i == 2 || i == 5 || i
                == 58 || i == 61)),
        forall|i: u64|
            i < 64 ==> (((0x8100_0000_0000_0081u64 >> i) & 1 == 1) <==> (i == 0 || i == 7 || i
                == 56 || i == 63)),
        forall|i: u64|
            i < 64 ==> (((0x0800_0000_0000_0008u64 >> i) & 1 == 1) <==> (i == 3 || i == 59)),
        forall|i: u64|
            i < 64 ==> (((0x1000_0000_0000_0010u64 >> i) & 1 == 1) <==> (i == 4 || i == 60)),
{
}

/// The zero mask holds no bit.
proof fn lemma_zero_bits()
    by (bit_vector)
    ensures
        forall|i: u64| i < 64 ==> ((0u64 >> i) & 1 != 1),
{
}

/// On a board whose occupied squares are exactly the first and last sixteen
/// indices, counting occupied squares below `n` is piecewise linear.
proof fn lemma_occupied_split(b: Board, n: int)
    requires
        forall|i: u64| i < 64 ==> (#[trigger] b.piece_at(i) is Some <==> (i < 16 || 48 <= i)),
        0 <= n <= 64,
    ensures
        b.occupied_below(n) == if n <= 16 {
            n
        } else if n <= 48 {
            16int
        } else {
            n - 32
        },
    decreases n,
{
    if n > 0 {
        lemma_occupied_split(b, n - 1);
    }
}

/// After setting one color bit and one kind bit at a square, occupancy at
/// every other square is unchanged, and a consistent board with that square
/// empty stays consistent and reads the new piece there.
proof fn lemma_set_some_laws(pre: Board, post: Board, square: Square, p: Piece)
    requires
        square.wf(),
        forall|c: Color, j: u64|
            j < 64 ==> #[trigger] post.spec_color_bb(c).spec_get(j) == (pre.spec_color_bb(
                c,
            ).spec_get(j) || (c == p.color && j == square@ as u64)),
        forall|k: PieceKind, j: u64|
            j < 64 ==> #[trigger] post.spec_piece_bb(k).spec_get(j) == (pre.spec_piece_bb(
                k,
            ).spec_get(j) || (k == p.kind && j == square@ as u64)),
    ensures
        forall|j: u64|
            j < 64 && j != square@ as u64 ==> #[trigger] post.piece_at(j) == pre.piece_at(j),
        pre.wf() && pre.is_empty_at(square@ as u64) ==> post.wf() && post.piece_at(
            square@ as u64,
        ) == Some(p),
{
    assert forall|j: u64| j < 64 && j != square@ as u64 implies #[trigger] post.piece_at(j)
        == pre.piece_at(j) by {
        assert(post.color_at(j) == pre.color_at(j));
        assert(post.kind_at(j) == pre.kind_at(j));
    }
    if pre.wf() && pre.is_empty_at(square@ as u64) {
        assert forall|j: u64| j < 64 implies #[trigger] post.wf_at(j) by {
            assert(pre.wf_at(j));
        }
    }
}

/// After clearing a square's bit in every mask, that square reads empty,
/// every other square is unchanged, clearing an already-empty square changes
/// no occupancy, and a consistent board stays consistent.
proof fn lemma_set_none_laws(pre: Board, post: Board, square: Square)
    requires
        square.wf(),
        forall|c: Color, j: u64|
            j < 64 ==> #[trigger] post.spec_color_bb(c).spec_get(j) == (pre.spec_color_bb(
                c,
            ).spec_get(j) && j != square@ as u64),
        forall|k: PieceKind, j: u64|
            j < 64 ==> #[trigger] post.spec_piece_bb(k).spec_get(j) == (pre.spec_piece_bb(
                k,
            ).spec_get(j) && j != square@ as u64),
    ensures
        post.piece_at(square@ as u64) is None,
        forall|j: u64|
            j < 64 && j != square@ as u64 ==> #[trigger] post.piece_at(j) == pre.piece_at(j),
        pre.is_empty_at(square@ as u64) ==> forall|j: u64|
            j < 64 ==> #[trigger] post.piece_at(j) == pre.piece_at(j),
        pre.wf() ==> post.wf(),
{
    assert forall|j: u64| j < 64 && j != square@ as u64 implies #[trigger] post.piece_at(j)
        == pre.piece_at(j) by {
        assert(post.color_at(j) == pre.color_at(j));
        assert(post.kind_at(j) == pre.kind_at(j));
    }
    if pre.wf() {
        assert forall|j: u64| j < 64 implies #[trigger] post.wf_at(j) by {
            assert(pre.wf_at(j));
        }
    }
}

} // verus!

//! Colors, piece kinds, and pieces.

use vstd::prelude::*;

verus! {

/// Number of piece colors.
pub const NUM_COLORS: u8 = 2;

/// Number of piece kinds.
pub const NUM_PIECE_KINDS: u8 = 6;

/// The color of a piece.
#[derive(Debug, Clone, Copy, PartialEq, Eq, Structural)]
pub enum Color {
    White,
    Black,
}

impl Color {
    /// Dense numeric representation of the color, usable as an array index.
    pub open spec fn spec_repr(self) -> u8 {
        match self {
            Color::White => 0,
            Color::Black => 1,
        }
    }

    /// Numeric representation of this color.
    pub fn repr(&self) -> (r: u8)
        ensures
            r == self.spec_repr(),
    {
        match self {
            Color::White => 0,
            Color::Black => 1,
        }
    }

    /// The color with the given numeric representation, absent when the
    /// number is out of range.
    pub fn from_repr(n: u8) -> (r: Option<Color>)
        ensures
            r is Some <==> n < NUM_COLORS,
            r matches Some(c) ==> c.spec_repr() == n,
    {
        if n == 0 {
            Some(Color::White)
        } else if n == 1 {
            Some(Color::Black)
        } else {
            None
        }
    }
}

/// The kind of a piece, independent of its color.
#[derive(Debug, Clone, Copy, PartialEq, Eq, Structural)]
pub enum PieceKind {
    Pawn,
    Knight,
    Bishop,
    Rook,
    Queen,
    King,
}

impl PieceKind {
    /// Dense numeric representation of the kind, usable as an array index.
    pub open spec fn spec_repr(self) -> u8 {
        match self {
            PieceKind::Pawn => 0,
            PieceKind::Knight => 1,
            PieceKind::Bishop => 2,
            PieceKind::Rook => 3,
            PieceKind::Queen => 4,
            PieceKind::King => 5,
        }
    }

    /// Numeric representation of this piece kind.
    pub fn repr(&self) -> (r: u8)
        ensures
            r == self.spec_repr(),
    {
        match self {
            PieceKind::Pawn => 0,
            PieceKind::Knight => 1,
            PieceKind::Bishop => 2,
            PieceKind::Rook => 3,
            PieceKind::Queen => 4,
            PieceKind::King => 5,
        }
    }

    /// The piece kind with the given numeric representation, absent when the
    /// number is out of range.
    pub fn from_repr(n: u8) -> (r: Option<PieceKind>)
        ensures
            r is Some <==> n < NUM_PIECE_KINDS,
            r matches Some(k) ==> k.spec_repr() == n,
    {
        if n == 0 {
            Some(PieceKind::Pawn)
        } else if n == 1 {
            Some(PieceKind::Knight)
        } else if n == 2 {
            Some(PieceKind::Bishop)
        } else if n == 3 {
            Some(PieceKind::Rook)
        } else if n == 4 {
            Some(PieceKind::Queen)
        } else if n == 5 {
            Some(PieceKind::King)
        } else {
            None
        }
    }
}

/// A piece: a color paired with a kind.
#[derive(Debug, Clone, Copy, PartialEq, Eq, Structural)]
pub struct Piece {
    /// The color of the piece.
    pub color: Color,
    /// The kind of the piece.
    pub kind: PieceKind,
}

impl Piece {
    /// The single-character glyph of the piece: the standard chess letter,
    /// uppercase for white and lowercase for black.
    pub open spec fn spec_char(self) -> char {
        match self.color {
            Color::White => match self.kind {
                PieceKind::Pawn => 'P',
                PieceKind::Knight => 'N',
                PieceKind::Bishop => 'B',
                PieceKind::Rook => 'R',
                PieceKind::Queen => 'Q',
                PieceKind::King => 'K',
            },
            Color::Black => match self.kind {
                PieceKind::Pawn => 'p',
                PieceKind::Knight => 'n',
                PieceKind::Bishop => 'b',
                PieceKind::Rook => 'r',
                PieceKind::Queen => 'q',
                PieceKind::King => 'k',
            },
        }
    }

    /// Render the piece as its single-character glyph.
    pub fn as_char(&self) -> (r: char)
        ensures
            r == self.spec_char(),
    {
        match self.color {
            Color::White => match self.kind {
                PieceKind::Pawn => 'P',
                PieceKind::Knight => 'N',
                PieceKind::Bishop => 'B',
                PieceKind::Rook => 'R',
                PieceKind::Queen => 'Q',
                PieceKind::King => 'K',
            },
            Color::Black => match self.kind {
                PieceKind::Pawn => 'p',
                PieceKind::Knight => 'n',
                PieceKind::Bishop => 'b',
                PieceKind::Rook => 'r',
                PieceKind::Queen => 'q',
                PieceKind::King => 'k',
            },
        }
    }
}

} // verus!

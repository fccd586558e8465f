//! Chessboard representation.
//!
//! Only defines structures that represent the board, does not check the
//! legality of positions or handle move generation.

pub mod bitboard;
pub mod board;
pub mod piece;
pub mod square;

pub use bitboard::BitBoard;
pub use board::Board;
pub use piece::Color;
pub use piece::Piece;
pub use piece::PieceKind;
pub use square::Square;

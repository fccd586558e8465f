use sealion_board::Color;
use sealion_board::Piece;
use sealion_board::PieceKind;
use sealion_board::piece::NUM_COLORS;
use sealion_board::piece::NUM_PIECE_KINDS;

#[test]
fn color_repr_roundtrip() {
    assert_eq!(Color::White.repr(), 0);
    assert_eq!(Color::Black.repr(), 1);
    assert_eq!(Color::from_repr(0), Some(Color::White));
    assert_eq!(Color::from_repr(1), Some(Color::Black));
    assert_eq!(Color::from_repr(2), None);
    assert_eq!(Color::from_repr(255), None);
    assert_eq!(NUM_COLORS, 2);
}

#[test]
fn piece_kind_repr_roundtrip() {
    let kinds = [
        PieceKind::Pawn,
        PieceKind::Knight,
        PieceKind::Bishop,
        PieceKind::Rook,
        PieceKind::Queen,
        PieceKind::King,
    ];
    for (n, kind) in kinds.iter().enumerate() {
        assert_eq!(kind.repr(), n as u8);
        assert_eq!(PieceKind::from_repr(n as u8), Some(*kind));
    }
    assert_eq!(PieceKind::from_repr(6), None);
    assert_eq!(PieceKind::from_repr(255), None);
    assert_eq!(NUM_PIECE_KINDS, 6);
}

#[test]
fn piece_glyphs() {
    let glyphs = [
        (Color::White, PieceKind::Pawn, 'P'),
        (Color::White, PieceKind::Knight, 'N'),
        (Color::White, PieceKind::Bishop, 'B'),
        (Color::White, PieceKind::Rook, 'R'),
        (Color::White, PieceKind::Queen, 'Q'),
        (Color::White, PieceKind::King, 'K'),
        (Color::Black, PieceKind::Pawn, 'p'),
        (Color::Black, PieceKind::Knight, 'n'),
        (Color::Black, PieceKind::Bishop, 'b'),
        (Color::Black, PieceKind::Rook, 'r'),
        (Color::Black, PieceKind::Queen, 'q'),
        (Color::Black, PieceKind::King, 'k'),
    ];
    for (color, kind, glyph) in glyphs {
        assert_eq!(Piece { color, kind }.as_char(), glyph);
    }
}

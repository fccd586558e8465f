use sealion_board::BitBoard;
use sealion_board::Board;
use sealion_board::Color;
use sealion_board::Piece;
use sealion_board::PieceKind;
use sealion_board::Square;

fn occupied_count(board: &Board) -> usize {
    let mut count = 0;
    for i in 0..64u8 {
        if board.get(Square::from_index_unchecked(i)).is_some() {
            count += 1;
        }
    }
    count
}

#[test]
fn default_board_is_empty() {
    let board = Board::default();
    for i in 0..64u8 {
        assert_eq!(board.get(Square::from_index_unchecked(i)), None);
    }
    assert_eq!(board.get_color_bb(Color::White), BitBoard(0));
    assert_eq!(board.get_color_bb(Color::Black), BitBoard(0));
    assert_eq!(board.get_piece_bb(PieceKind::Pawn), BitBoard(0));
    assert_eq!(board.get_piece_bb(PieceKind::King), BitBoard(0));
}

#[test]
fn starting_position_layout() {
    let board = Board::starting_position();
    assert_eq!(occupied_count(&board), 32);
    let white_rook = Piece { color: Color::White, kind: PieceKind::Rook };
    let white_king = Piece { color: Color::White, kind: PieceKind::King };
    let black_queen = Piece { color: Color::Black, kind: PieceKind::Queen };
    let black_king = Piece { color: Color::Black, kind: PieceKind::King };
    assert_eq!(board.get(Square::at(0, 0).unwrap()), Some(white_rook));
    assert_eq!(board.get(Square::at(0, 4).unwrap()), Some(white_king));
    assert_eq!(board.get(Square::at(7, 3).unwrap()), Some(black_queen));
    assert_eq!(board.get(Square::at(7, 4).unwrap()), Some(black_king));
    for rank in 2..6u8 {
        for file in 0..8u8 {
            assert_eq!(board.get(Square::at(rank, file).unwrap()), None);
        }
    }
}

#[test]
fn starting_position_masks() {
    let board = Board::starting_position();
    assert_eq!(board.get_color_bb(Color::White), BitBoard(0x0000_0000_0000_FFFF));
    assert_eq!(board.get_color_bb(Color::Black), BitBoard(0xFFFF_0000_0000_0000));
    assert_eq!(board.get_piece_bb(PieceKind::Pawn), BitBoard(0x00FF_0000_0000_FF00));
    assert_eq!(board.get_piece_bb(PieceKind::Knight), BitBoard(0x4200_0000_0000_0042));
    assert_eq!(board.get_piece_bb(PieceKind::Bishop), BitBoard(0x2400_0000_0000_0024));
    assert_eq!(board.get_piece_bb(PieceKind::Rook), BitBoard(0x8100_0000_0000_0081));
    assert_eq!(board.get_piece_bb(PieceKind::Queen), BitBoard(0x0800_0000_0000_0008));
    assert_eq!(board.get_piece_bb(PieceKind::King), BitBoard(0x1000_0000_0000_0010));
    let white_pawn = Piece { color: Color::White, kind: PieceKind::Pawn };
    assert_eq!(board.get_bb(white_pawn), BitBoard(0x0000_0000_0000_FF00));
    let black_rook = Piece { color: Color::Black, kind: PieceKind::Rook };
    assert_eq!(board.get_bb(black_rook), BitBoard(0x8100_0000_0000_0000));
}

#[test]
fn set_then_get() {
    let mut board = Board::default();
    let white_pawn = Piece { color: Color::White, kind: PieceKind::Pawn };
    let black_knight = Piece { color: Color::Black, kind: PieceKind::Knight };
    let e4 = Square::from_str("e4").unwrap();
    let g8 = Square::from_str("g8").unwrap();
    board.set(e4, Some(white_pawn));
    board.set(g8, Some(black_knight));
    assert_eq!(board.get(e4), Some(white_pawn));
    assert_eq!(board.get_color(e4), Some(Color::White));
    assert_eq!(board.get_piece_kind(e4), Some(PieceKind::Pawn));
    assert_eq!(board.get(g8), Some(black_knight));
    assert_eq!(occupied_count(&board), 2);
}

#[test]
fn clear_restores_absence() {
    let mut board = Board::default();
    let white_queen = Piece { color: Color::White, kind: PieceKind::Queen };
    let black_pawn = Piece { color: Color::Black, kind: PieceKind::Pawn };
    let d4 = Square::from_str("d4").unwrap();
    let h7 = Square::from_str("h7").unwrap();
    board.set(d4, Some(white_queen));
    board.set(h7, Some(black_pawn));
    board.set(d4, None);
    assert_eq!(board.get(d4), None);
    assert_eq!(board.get_color(d4), None);
    assert_eq!(board.get_piece_kind(d4), None);
    assert_eq!(board.get(h7), Some(black_pawn));
}

#[test]
fn clear_empty_square_is_noop() {
    let mut board = Board::starting_position();
    let before = board.clone();
    board.set(Square::from_str("e4").unwrap(), None);
    assert_eq!(board, before);
}

#[test]
fn set_sequence_keeps_masks_exclusive() {
    let mut board = Board::default();
    let moves = [
        ("e2", Some(Piece { color: Color::White, kind: PieceKind::Pawn })),
        ("e7", Some(Piece { color: Color::Black, kind: PieceKind::Pawn })),
        ("g1", Some(Piece { color: Color::White, kind: PieceKind::Knight })),
        ("e2", None),
        ("e4", Some(Piece { color: Color::White, kind: PieceKind::Pawn })),
    ];
    for (name, piece) in moves {
        board.set(Square::from_str(name).unwrap(), piece);
        for i in 0..64u8 {
            let sq = Square::from_index_unchecked(i);
            let mut colors = 0;
            if board.get_color_bb(Color::White).get(sq) {
                colors += 1;
            }
            if board.get_color_bb(Color::Black).get(sq) {
                colors += 1;
            }
            assert!(colors <= 1);
            let kinds = [
                PieceKind::Pawn,
                PieceKind::Knight,
                PieceKind::Bishop,
                PieceKind::Rook,
                PieceKind::Queen,
                PieceKind::King,
            ];
            let mut claimed = 0;
            for kind in kinds {
                if board.get_piece_bb(kind).get(sq) {
                    claimed += 1;
                }
            }
            assert!(claimed <= 1);
            assert_eq!(colors == 0, claimed == 0);
        }
    }
}

#[test]
fn mutable_mask_access() {
    let mut board = Board::default();
    let c3 = Square::from_str("c3").unwrap();
    board.get_color_bb_mut(Color::White).set(c3, true);
    board.get_piece_bb_mut(PieceKind::Bishop).set(c3, true);
    let white_bishop = Piece { color: Color::White, kind: PieceKind::Bishop };
    assert_eq!(board.get(c3), Some(white_bishop));
    *board.get_piece_bb_mut(PieceKind::Bishop) = BitBoard(0);
    assert_eq!(board.get(c3), None);
}

#[test]
fn render_starting_position() {
    let expected = " a  b  c  d  e  f  g  h\n r  n  b  q  k  b  n  r \n p  p  p  p  p  p  p  p \n                        \n                        \n                        \n                        \n P  P  P  P  P  P  P  P \n R  N  B  Q  K  B  N  R \n";
    assert_eq!(Board::starting_position().to_string(), expected);
}

#[test]
fn render_after_mutation() {
    let mut board = Board::default();
    let white_king = Piece { color: Color::White, kind: PieceKind::King };
    board.set(Square::from_str("b2").unwrap(), Some(white_king));
    let expected = " a  b  c  d  e  f  g  h\n                        \n                        \n                        \n                        \n                        \n                        \n    K                   \n                        \n";
    assert_eq!(board.to_string(), expected);
}

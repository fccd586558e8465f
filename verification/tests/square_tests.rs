use sealion_board::Square;

#[test]
fn square_to_str() {
    assert_eq!(&Square::at(0, 0).unwrap().to_string(), "a1");
    assert_eq!(&Square::at(5, 7).unwrap().to_string(), "f8");
    assert_eq!(&Square::at(4, 3).unwrap().to_string(), "e4");
    assert_eq!(&Square::at(2, 6).unwrap().to_string(), "c7");
    assert_eq!(&Square::at(8, 8), &None);
}

#[test]
fn square_from_str() {
    assert_eq!(Square::from_str("a2"), Square::at(0, 1).ok_or(()));
    assert_eq!(Square::from_str("h8"), Square::at(7, 7).ok_or(()));
    assert_eq!(Square::from_str("C5"), Square::at(2, 4).ok_or(()));
    assert!(Square::from_str("5c").is_err());
    assert!(Square::from_str("b-").is_err());
    assert!(Square::from_str("^8").is_err());
    assert!(Square::from_str("b891").is_err());
    assert!(Square::from_str("b0").is_err());
}

#[test]
fn roundtrip_all_squares() {
    for rank in 0..8u8 {
        for file in 0..8u8 {
            let sq = Square::at(rank, file).unwrap();
            let text = sq.to_string();
            let back = Square::from_str(&text).unwrap();
            assert_eq!(back, sq);
            assert_eq!(back.rank(), rank);
            assert_eq!(back.file(), file);
        }
    }
}

#[test]
fn parse_rejects_wrong_length() {
    assert!(Square::from_str("").is_err());
    assert!(Square::from_str("a").is_err());
    assert!(Square::from_str("a12").is_err());
    assert!(Square::from_str(" a1").is_err());
}

#[test]
fn parse_is_case_insensitive() {
    assert_eq!(Square::from_str("A1"), Ok(Square::at(0, 0).unwrap()));
    assert_eq!(Square::from_str("H8"), Ok(Square::at(7, 7).unwrap()));
    assert_eq!(Square::from_str("c5"), Square::from_str("C5"));
}

#[test]
fn parse_rejects_out_of_range_letters() {
    assert!(Square::from_str("i1").is_err());
    assert!(Square::from_str("I1").is_err());
    assert!(Square::from_str("z3").is_err());
    assert!(Square::from_str("a9").is_err());
}

#[test]
fn square_try_from_pair() {
    assert_eq!(Square::try_from((0u8, 1u8)), Ok(Square::at(0, 1).unwrap()));
    assert_eq!(Square::try_from((7u8, 7u8)), Ok(Square::at(7, 7).unwrap()));
    assert_eq!(Square::try_from((8u8, 0u8)), Err(()));
    assert_eq!(Square::try_from((0u8, 8u8)), Err(()));
}

#[test]
fn square_coordinates() {
    let sq = Square::at(3, 6).unwrap();
    assert_eq!(sq.rank(), 3);
    assert_eq!(sq.file(), 6);
    assert_eq!(sq.raw_index(), 3 * 8 + 6);
}

#[test]
fn raw_index_access() {
    let sq = Square::from_index_unchecked(17);
    assert_eq!(sq.raw_index(), 17);
    let mut sq = Square::at(0, 0).unwrap();
    *sq.raw_index_mut() = 9;
    assert_eq!(sq.rank(), 1);
    assert_eq!(sq.file(), 1);
}

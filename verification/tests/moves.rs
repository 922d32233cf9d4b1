use chesscore::constants::CAP_KNIGHT;
use chesscore::constants::CAP_ROOK;
use chesscore::constants::MOVE_CAPTURE;
use chesscore::constants::MOVE_CASTLING;
use chesscore::constants::MOVE_DOUBLE_PUSH;
use chesscore::constants::MOVE_ENPASSANT;
use chesscore::constants::MOVE_MASK_CAPTURE;
use chesscore::constants::MOVE_NORMAL;
use chesscore::constants::MOVE_PROMOTION;
use chesscore::constants::MOVE_PROM_CAP;
use chesscore::constants::PROM_QUEEN;
use chesscore::constants::PROM_ROOK;
use chesscore::bitboard::clear_bit;
use chesscore::bitboard::create_bb;
use chesscore::bitboard::set_bit;
use chesscore::castling::CastlingRightType;
use chesscore::types::Bitboard;
use chesscore::types::CastlingRights;
use chesscore::types::File;
use chesscore::types::Move;
use chesscore::types::PieceType;
use chesscore::types::Rank;
use chesscore::types::Square;

#[test]
fn normal_move_roundtrip() {
    let m = Move::normal(Square(1), Square(18));
    assert_eq!(m.from_square(), Square(1));
    assert_eq!(m.to_square(), Square(18));
    assert!(m.is_move_type(MOVE_NORMAL));
    assert!(!m.is_move_type(MOVE_CAPTURE));
    assert!(!m.is_move_type(MOVE_MASK_CAPTURE));
    assert_eq!(m.promotion_type(), PieceType(0));
    assert_eq!(m.capture_type(), PieceType(0));
}

#[test]
fn capture_move_roundtrip() {
    let m = Move::capture(Square(28), Square(35), CAP_KNIGHT);
    assert_eq!(m.from_square(), Square(28));
    assert_eq!(m.to_square(), Square(35));
    assert!(m.is_move_type(MOVE_CAPTURE));
    assert!(m.is_move_type(MOVE_MASK_CAPTURE));
    assert!(!m.is_move_type(MOVE_NORMAL));
    assert_eq!(m.capture_type(), PieceType(1));
}

#[test]
fn promotion_move_roundtrip() {
    let m = Move::promotion(Square(52), Square(60), PROM_QUEEN, 0);
    assert_eq!(m.from_square(), Square(52));
    assert_eq!(m.to_square(), Square(60));
    assert!(m.is_move_type(MOVE_PROMOTION));
    assert!(!m.is_move_type(MOVE_MASK_CAPTURE));
    assert_eq!(m.promotion_type(), PieceType(4));
}

#[test]
fn promotion_capture_move_roundtrip() {
    let m = Move::promotion_capture(Square(49), Square(56), PROM_ROOK, CAP_ROOK);
    assert_eq!(m.from_square(), Square(49));
    assert_eq!(m.to_square(), Square(56));
    assert!(m.is_move_type(MOVE_PROM_CAP));
    assert!(m.is_move_type(MOVE_MASK_CAPTURE));
    assert_eq!(m.promotion_type(), PieceType(3));
    assert_eq!(m.capture_type(), PieceType(3));
}

#[test]
fn double_push_and_castle_and_enpassant_roundtrip() {
    let dp = Move::double_push(Square(8), Square(24));
    assert_eq!(dp.from_square(), Square(8));
    assert_eq!(dp.to_square(), Square(24));
    assert!(dp.is_move_type(MOVE_DOUBLE_PUSH));

    let cs = Move::castle(Square(4), Square(6));
    assert_eq!(cs.from_square(), Square(4));
    assert_eq!(cs.to_square(), Square(6));
    assert!(cs.is_move_type(MOVE_CASTLING));

    let ep = Move::enpassant(Square(36), Square(43));
    assert_eq!(ep.from_square(), Square(36));
    assert_eq!(ep.to_square(), Square(43));
    assert!(ep.is_move_type(MOVE_ENPASSANT));
    assert!(ep.is_move_type(MOVE_MASK_CAPTURE));
}

#[test]
fn square_coordinates() {
    let s = Square::new(File(4), Rank(3));
    assert_eq!(s, Square(28));
    assert_eq!(s.rank(), Rank(3));
    assert_eq!(s.file(), File(4));
    assert_eq!(Square::new(File(0), Rank(0)), Square(0));
    assert_eq!(Square::new(File(7), Rank(7)), Square(63));
}

#[test]
fn bitboard_single_bits() {
    assert_eq!(Bitboard::from_shift(0).0, 1);
    assert_eq!(Bitboard::from_shift(63).0, 1u64 << 63);
    assert_eq!(create_bb(5).0, 32);

    let mut bb = Bitboard(0);
    set_bit(&mut bb, 3);
    assert_eq!(bb.0, 8);
    set_bit(&mut bb, 10);
    assert_eq!(bb.0, 8 | (1 << 10));
    clear_bit(&mut bb, 3);
    assert_eq!(bb.0, 1 << 10);
    clear_bit(&mut bb, 11);
    assert_eq!(bb.0, 1 << 10);
}

#[test]
fn bitboard_composition() {
    let a = Bitboard(0b1100);
    let b = Bitboard(0b1010);
    assert_eq!(a.bit_and(b).0, 0b1000);
    assert_eq!(a.bit_or(b).0, 0b1110);
    assert_eq!(a.bit_xor(b).0, 0b0110);
}

#[test]
fn bitboard_swap_bytes_mirrors_ranks() {
    let a1 = Bitboard(1);
    assert_eq!(a1.swap_bytes().0, 1u64 << 56);
    assert_eq!(a1.swap_bytes().swap_bytes().0, 1);
    let e4 = Bitboard(1u64 << 28);
    assert_eq!(e4.swap_bytes().0, 1u64 << (28 ^ 56));
}

#[test]
fn bitboard_lsb() {
    assert_eq!(Bitboard(0).lsb(), 64);
    assert_eq!(Bitboard(1).lsb(), 0);
    assert_eq!(Bitboard(0b1010_0000).lsb(), 5);
    assert_eq!(Bitboard(1u64 << 63).lsb(), 63);
}

#[test]
fn castling_rights_grant_revoke_allows() {
    let mut cr = CastlingRights(0);
    cr.grant(CastlingRightType::WhiteKingSide);
    cr.grant(CastlingRightType::BlackQueenSide);
    assert_eq!(cr.0, 9);
    assert!(cr.allows(CastlingRights(1)));
    assert!(cr.allows(CastlingRights(8)));
    assert!(!cr.allows(CastlingRights(2)));
    assert!(!cr.allows(CastlingRights(4)));
    cr.revoke(CastlingRightType::WhiteKingSide);
    assert_eq!(cr.0, 8);
    cr.revoke(CastlingRightType::BlackKingSide);
    assert_eq!(cr.0, 8);
}

#[test]
fn castling_rights_spoil() {
    let mut cr = CastlingRights(15);
    cr.spoil(CastlingRights(12));
    assert_eq!(cr.0, 12);
    cr.spoil(CastlingRights(7));
    assert_eq!(cr.0, 4);
}

use chesscore::constants::CAP_ROOK;
use chesscore::constants::PROM_QUEEN;
use chesscore::fen::FenError;
use chesscore::position::castling_spoiler;
use chesscore::position::Position;
use chesscore::types::Bitboard;
use chesscore::types::Move;
use chesscore::types::Square;

const INITIAL_FEN: &[u8] = b"rnbqkbnr/pppppppp/8/8/8/8/PPPPPPPP/RNBQKBNR w KQkq - 0 1";

fn initial() -> Position {
    Position::from_fen(INITIAL_FEN).unwrap()
}

#[test]
fn initial_position_decode() {
    let p = initial();
    assert_eq!(p.pawns.0, 0x00FF_0000_0000_FF00);
    assert_eq!(p.knights.0, 0x4200_0000_0000_0042);
    assert_eq!(p.bishops.0, 0x2400_0000_0000_0024);
    assert_eq!(p.rooks.0, 0x8100_0000_0000_0081);
    assert_eq!(p.queens.0, 0x0800_0000_0000_0008);
    assert_eq!(p.kings.0, 0x1000_0000_0000_0010);
    // White pawns on squares 8-15, Black pawns on 48-55.
    assert_eq!(p.pawns.0 & p.white.0, 0x0000_0000_0000_FF00);
    assert_eq!(p.pawns.0 & p.black.0, 0x00FF_0000_0000_0000);
    assert_eq!(p.white.0, 0x0000_0000_0000_FFFF);
    assert_eq!(p.black.0, 0xFFFF_0000_0000_0000);
    assert_eq!(p.castling_rights.0, 15);
    assert_eq!(p.enpassant_sq, Square(64));
    assert_eq!(p.side_to_move.0, 0);
    assert_eq!(p.halfmoves, 0);
    assert_eq!(p.fullmoves, 1);
    assert!(p.is_consistent());
}

#[test]
fn black_to_move_is_stored_flipped() {
    // A black-to-move FEN is stored mirrored, with the mover's men in
    // the index-0 color plane. The starting position is symmetric, so
    // its black-to-move decode coincides with the white-to-move one.
    let p = Position::from_fen(b"rnbqkbnr/pppppppp/8/8/8/8/PPPPPPPP/RNBQKBNR b KQkq - 0 1")
        .unwrap();
    assert_eq!(p, initial());
    // An asymmetric board shows the mirroring.
    let q = Position::from_fen(b"4k3/8/8/8/8/8/8/4K2R b K - 0 1").unwrap();
    assert_eq!(q.rooks.0, 1u64 << 63);
    assert_eq!(q.black.0 & (1u64 << 63), 1u64 << 63);
    assert_eq!(q.castling_rights.0, 4);
}

#[test]
fn flip_roundtrip_on_initial_position() {
    let p = initial();
    let f = p.flipped();
    assert_ne!(f.side_to_move.0, p.side_to_move.0);
    assert_eq!(f.flipped(), p);
    let mut q = p;
    q.flip();
    q.flip();
    assert_eq!(q, p);
}

#[test]
fn flip_mirrors_asymmetric_position() {
    let p = Position::from_fen(b"4k3/8/8/8/8/8/8/4K2R w K - 3 7").unwrap();
    let f = p.flipped();
    // The white rook on h1 appears as an opponent rook on h8.
    assert_eq!(f.rooks.0, 1u64 << 63);
    assert_eq!(f.black.0 & (1u64 << 63), 1u64 << 63);
    // The castling rights move to the black pair.
    assert_eq!(f.castling_rights.0, 4);
    assert_eq!(f.side_to_move.0, 1);
    assert_eq!(f.halfmoves, 3);
    assert_eq!(f.fullmoves, 7);
}

#[test]
fn normal_knight_move_from_initial() {
    let p = initial();
    let r = p.make_move(&Move::normal(Square(1), Square(18)));
    // The input is a value; it is unchanged.
    assert_eq!(p, initial());
    // Viewed again from White's side, the knight stands on c3.
    let v = r.flipped();
    assert_eq!(
        v.knights.0,
        (1u64 << 6) | (1u64 << 18) | (1u64 << 57) | (1u64 << 62)
    );
    assert_eq!(v.white.0, (0xFFFFu64 & !(1 << 1)) | (1 << 18));
    assert_eq!(v.side_to_move.0, 0);
    assert_eq!(r.side_to_move.0, 1);
    assert_eq!(r.enpassant_sq, Square(64));
    assert_eq!(r.castling_rights.0, 15);
    assert!(r.is_consistent());
}

#[test]
fn double_push_sets_enpassant_target() {
    let p = initial();
    let r = p.make_move(&Move::double_push(Square(8), Square(24)));
    // Before the flip the target is square 16; stored mirrored.
    assert_eq!(r.enpassant_sq, Square(16 ^ 56));
    assert_eq!(r.flipped().enpassant_sq, Square(16));
    assert!(r.is_consistent());
}

#[test]
fn capture_resets_halfmove_clock() {
    let p = Position::from_fen(b"4k3/8/8/3n4/8/8/8/3RK3 w - - 11 30").unwrap();
    let r = p.make_move(&Move::capture(
        Square(3),
        Square(35),
        chesscore::constants::CAP_KNIGHT,
    ));
    let v = r.flipped();
    assert_eq!(v.rooks.0, 1u64 << 35);
    assert_eq!(v.knights.0, 0);
    assert_eq!(v.white.0, (1u64 << 35) | (1u64 << 4));
    assert_eq!(v.halfmoves, 0);
    assert_eq!(v.fullmoves, 30);
    assert!(r.is_consistent());
}

#[test]
fn king_side_castle_moves_rook_and_clears_rights() {
    let p = Position::from_fen(b"4k3/8/8/8/8/8/8/4K2R w KQ - 0 1").unwrap();
    let r = p.make_move(&Move::castle(Square(4), Square(6)));
    let v = r.flipped();
    // King from e1 to g1 and rook from h1 to f1, in one transition.
    assert_eq!(v.kings.0, (1u64 << 6) | (1u64 << 60));
    assert_eq!(v.rooks.0, 1u64 << 5);
    assert_eq!(v.white.0, (1u64 << 5) | (1u64 << 6));
    // Both of the mover's castling bits are gone.
    assert_eq!(v.castling_rights.0, 0);
    assert!(r.is_consistent());
}

#[test]
fn queen_side_castle_moves_rook() {
    let p = Position::from_fen(b"4k3/8/8/8/8/8/8/R3K3 w Q - 0 1").unwrap();
    let r = p.make_move(&Move::castle(Square(4), Square(2)));
    let v = r.flipped();
    assert_eq!(v.kings.0, (1u64 << 2) | (1u64 << 60));
    assert_eq!(v.rooks.0, 1u64 << 3);
    assert_eq!(v.castling_rights.0, 0);
    assert!(r.is_consistent());
}

#[test]
fn promotion_places_new_piece() {
    let p = Position::from_fen(b"4k3/1P6/8/8/8/8/8/4K3 w - - 0 1").unwrap();
    let r = p.make_move(&Move::promotion(Square(49), Square(57), PROM_QUEEN, 0));
    let v = r.flipped();
    assert_eq!(v.pawns.0, 0);
    assert_eq!(v.queens.0, 1u64 << 57);
    assert_eq!(v.white.0, (1u64 << 57) | (1u64 << 4));
    assert!(r.is_consistent());
}

#[test]
fn promotion_capture_swaps_exactly_two_pieces() {
    let p = Position::from_fen(b"r3k3/1P6/8/8/8/8/8/4K3 w - - 0 1").unwrap();
    let r = p.make_move(&Move::promotion_capture(
        Square(49),
        Square(56),
        PROM_QUEEN,
        CAP_ROOK,
    ));
    let v = r.flipped();
    // The origin pawn and the captured rook are gone; exactly one
    // queen appeared on the destination.
    assert_eq!(v.pawns.0, 0);
    assert_eq!(v.rooks.0, 0);
    assert_eq!(v.queens.0, 1u64 << 56);
    assert_eq!(v.white.0, (1u64 << 56) | (1u64 << 4));
    assert_eq!(v.black.0, 1u64 << 60);
    assert!(r.is_consistent());
}

#[test]
fn enpassant_removes_pawn_on_recorded_square() {
    let p = Position::from_fen(b"4k3/8/8/3pP3/8/8/8/4K3 w - d5 0 1").unwrap();
    assert_eq!(p.enpassant_sq, Square(35));
    let r = p.make_move(&Move::enpassant(Square(36), Square(43)));
    let v = r.flipped();
    assert_eq!(v.pawns.0, 1u64 << 43);
    assert_eq!(v.white.0 & (1u64 << 43), 1u64 << 43);
    assert_eq!(v.black.0, 1u64 << 60);
    assert_eq!(v.enpassant_sq, Square(64));
    assert!(r.is_consistent());
}

#[test]
fn piece_type_lookup() {
    let p = initial();
    assert_eq!(p.piece_type_on(&Square(0)).0, 3);
    assert_eq!(p.piece_type_on(&Square(1)).0, 1);
    assert_eq!(p.piece_type_on(&Square(2)).0, 2);
    assert_eq!(p.piece_type_on(&Square(3)).0, 4);
    assert_eq!(p.piece_type_on(&Square(4)).0, 5);
    assert_eq!(p.piece_type_on(&Square(8)).0, 0);
    assert_eq!(p.piece_type_on(&Square(30)).0, 6);
}

#[test]
fn consistency_check_rejects_overlap() {
    let mut p = initial();
    // Put a stray knight on an occupied pawn square.
    p.knights = Bitboard(p.knights.0 | (1 << 8));
    assert!(!p.is_consistent());
    let mut q = initial();
    // A colored square with no piece on it.
    q.white = Bitboard(q.white.0 | (1 << 30));
    assert!(!q.is_consistent());
}

#[test]
fn spoiler_table_values() {
    assert_eq!(castling_spoiler(0), 13);
    assert_eq!(castling_spoiler(4), 12);
    assert_eq!(castling_spoiler(7), 14);
    assert_eq!(castling_spoiler(56), 7);
    assert_eq!(castling_spoiler(60), 3);
    assert_eq!(castling_spoiler(63), 11);
    assert_eq!(castling_spoiler(33), 15);
}

#[test]
fn fen_rejects_bad_piece_char() {
    assert_eq!(
        Position::from_fen(b"rnbqkbnr/pppppppp/8/8/8/8/PPPPPPPP/RNBQKBNX w KQkq - 0 1"),
        Err(FenError::BadPieceChar(b'X'))
    );
}

#[test]
fn fen_rejects_board_overflow() {
    assert_eq!(
        Position::from_fen(b"9p/8/8/8/8/8/8/8 w - - 0 1"),
        Err(FenError::BoardOverflow)
    );
    assert_eq!(
        Position::from_fen(b"//8/8/8/8/8/8 w - - 0 1"),
        Err(FenError::BoardOverflow)
    );
}

#[test]
fn fen_rejects_bad_side() {
    assert_eq!(
        Position::from_fen(b"8/8/8/8/8/8/8/8 x - - 0 1"),
        Err(FenError::BadSideChar(b'x'))
    );
    assert_eq!(
        Position::from_fen(b"8/8/8/8/8/8/8/8 wb - - 0 1"),
        Err(FenError::BadSideChar(b'b'))
    );
}

#[test]
fn fen_rejects_bad_castling_char() {
    assert_eq!(
        Position::from_fen(b"8/8/8/8/8/8/8/8 w z - 0 1"),
        Err(FenError::BadCastlingChar(b'z'))
    );
}

#[test]
fn fen_castling_letters_toggle() {
    // Exclusive-or accumulation: a repeated letter cancels itself.
    let p = Position::from_fen(b"8/8/8/8/8/8/8/8 w KK - 0 1").unwrap();
    assert_eq!(p.castling_rights.0, 0);
    let q = Position::from_fen(b"8/8/8/8/8/8/8/8 w Kq - 0 1").unwrap();
    assert_eq!(q.castling_rights.0, 9);
}

#[test]
fn fen_rejects_bad_enpassant() {
    assert_eq!(
        Position::from_fen(b"8/8/8/8/8/8/8/8 w - i3 0 1"),
        Err(FenError::BadEnpassant(b'i'))
    );
    assert_eq!(
        Position::from_fen(b"8/8/8/8/8/8/8/8 w - e9 0 1"),
        Err(FenError::BadEnpassant(b'9'))
    );
    assert_eq!(
        Position::from_fen(b"8/8/8/8/8/8/8/8 w - e 0 1"),
        Err(FenError::BadEnpassant(b' '))
    );
}

#[test]
fn fen_reads_enpassant_square() {
    let p = Position::from_fen(b"8/8/8/8/8/8/8/8 w - e3 0 1").unwrap();
    assert_eq!(p.enpassant_sq, Square(20));
}

#[test]
fn fen_rejects_bad_numbers() {
    assert_eq!(
        Position::from_fen(b"8/8/8/8/8/8/8/8 w - - x 1"),
        Err(FenError::BadNumber(b'x'))
    );
    assert_eq!(
        Position::from_fen(b"8/8/8/8/8/8/8/8 w - - 0 -1"),
        Err(FenError::BadNumber(b'-'))
    );
    assert_eq!(
        Position::from_fen(b"8/8/8/8/8/8/8/8 w - - 256 1"),
        Err(FenError::NumberOverflow)
    );
    assert_eq!(
        Position::from_fen(b"8/8/8/8/8/8/8/8 w - - 0 4294967296"),
        Err(FenError::NumberOverflow)
    );
}

#[test]
fn fen_rejects_wrong_field_count() {
    assert_eq!(Position::from_fen(b""), Err(FenError::FieldCount));
    assert_eq!(
        Position::from_fen(b"8/8/8/8/8/8/8/8 w - - 0"),
        Err(FenError::FieldCount)
    );
    assert_eq!(
        Position::from_fen(b"8/8/8/8/8/8/8/8 w - - 0 1 extra"),
        Err(FenError::FieldCount)
    );
}

#[test]
fn fen_roundtrip_initial_position() {
    // Decoding the initial FEN and re-encoding yields the same string.
    let p = initial();
    assert_eq!(p.to_fen(), INITIAL_FEN.to_vec());
}

#[test]
fn fen_roundtrip_sparse_position() {
    let fen: &[u8] = b"r3k3/1P6/8/8/8/8/8/4K3 w q e3 4 21";
    let p = Position::from_fen(fen).unwrap();
    assert_eq!(p.to_fen(), fen.to_vec());
}

#[test]
fn fen_encode_after_move() {
    let p = initial();
    let r = p.make_move(&Move::double_push(Square(12), Square(28)));
    assert_eq!(
        r.to_fen(),
        b"rnbqkbnr/pppppppp/8/8/4P3/8/PPPP1PPP/RNBQKBNR b KQkq e3 0 1".to_vec()
    );
}

#[test]
fn fen_reads_clocks() {
    let p = Position::from_fen(b"8/8/8/8/8/8/8/8 w - - 42 137").unwrap();
    assert_eq!(p.halfmoves, 42);
    assert_eq!(p.fullmoves, 137);
}

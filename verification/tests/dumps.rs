use chesscore::types::Bitboard;
use chesscore::types::CastlingRights;
use chesscore::types::Color;
use chesscore::types::ColoredPiece;
use chesscore::types::PieceType;
use chesscore::types::Square;
use chesscore::utils::Printable;

#[test]
fn color_dump() {
    assert_eq!(Color(0).print(), b"w".to_vec());
    assert_eq!(Color(1).print(), b"b".to_vec());
}

#[test]
fn piece_type_dump() {
    assert_eq!(PieceType(0).print(), b"p".to_vec());
    assert_eq!(PieceType(3).print(), b"r".to_vec());
    assert_eq!(PieceType(5).print(), b"k".to_vec());
    assert_eq!(PieceType(6).print(), b"?".to_vec());
}

#[test]
fn colored_piece_dump() {
    assert_eq!(ColoredPiece(PieceType(4), Color(0)).print(), b"Q".to_vec());
    assert_eq!(ColoredPiece(PieceType(4), Color(1)).print(), b"q".to_vec());
}

#[test]
fn square_dump() {
    assert_eq!(Square(0).print(), b"a1".to_vec());
    assert_eq!(Square(28).print(), b"e4".to_vec());
    assert_eq!(Square(63).print(), b"h8".to_vec());
    assert_eq!(Square(64).print(), b"-".to_vec());
}

#[test]
fn castling_rights_dump() {
    assert_eq!(CastlingRights(0).print(), b"-".to_vec());
    assert_eq!(CastlingRights(15).print(), b"kqKQ".to_vec());
    assert_eq!(CastlingRights(9).print(), b"qK".to_vec());
}

#[test]
fn bitboard_grid_dump() {
    let empty = Bitboard(0);
    let grid = empty.print();
    let text = String::from_utf8(grid).unwrap();
    let rows: Vec<&str> = text.split('\n').collect();
    assert_eq!(rows.len(), 8);
    for row in rows.iter() {
        assert_eq!(*row, "- - - - - - - - ");
    }
    // A lone a1 bit shows up in the bottom-left cell.
    let a1 = Bitboard(1);
    let text = String::from_utf8(a1.print()).unwrap();
    let rows: Vec<&str> = text.split('\n').collect();
    assert_eq!(rows[7], "X - - - - - - - ");
    assert_eq!(rows[0], "- - - - - - - - ");
}

//! Named constants of the board model: square indices, colors, piece
//! types, castling-right bits and the bit layout of the packed move.

use vstd::prelude::*;

verus! {

/// Index of the reserved "no square" sentinel (valid squares are 0..63).
pub const SQUARE_INVALID_IDX: u8 = 64;

// Piece type indices.
pub const PAWN_IDX: u8 = 0;
pub const KNIGHT_IDX: u8 = 1;
pub const BISHOP_IDX: u8 = 2;
pub const ROOK_IDX: u8 = 3;
pub const QUEEN_IDX: u8 = 4;
pub const KING_IDX: u8 = 5;
/// Returned by lookups on an empty square; never stored in a position.
pub const PIECE_NONE_IDX: u8 = 6;

// Color indices. The position is always stored from the perspective of
// the side to move, so index 0 ("white") doubles as "us" and index 1
// ("black") as "them".
pub const WHITE_IDX: u8 = 0;
pub const BLACK_IDX: u8 = 1;

// Castling right bits: a 4-bit mask.
pub const WHITE_KING_SIDE_BIT: u8 = 1;
pub const WHITE_QUEEN_SIDE_BIT: u8 = 2;
pub const BLACK_KING_SIDE_BIT: u8 = 4;
pub const BLACK_QUEEN_SIDE_BIT: u8 = 8;

// Move kind flags: exactly one of these one-hot bits is set in a move.
pub const MOVE_NORMAL: u32 = 0x0000_1000;
pub const MOVE_CAPTURE: u32 = 0x0000_2000;
pub const MOVE_DOUBLE_PUSH: u32 = 0x0000_4000;
pub const MOVE_ENPASSANT: u32 = 0x0000_8000;
pub const MOVE_CASTLING: u32 = 0x0001_0000;
pub const MOVE_PROM_CAP: u32 = 0x0002_0000;
pub const MOVE_PROMOTION: u32 = 0x0004_0000;
/// All three kinds that remove an opposing piece.
pub const MOVE_MASK_CAPTURE: u32 = 0x0002_A000;
/// All seven kind flags.
pub const MOVE_MASK_ALL: u32 = 0x0007_F000;

// Field positions inside the packed move.
pub const PROM_SHIFT: u32 = 19;
pub const CAP_SHIFT: u32 = 22;
/// The bits that hold the promotion piece type (three bits at `PROM_SHIFT`).
pub const MOVE_MASK_PROM: u32 = 0x0038_0000;
/// The bits that hold the captured piece type (three bits at `CAP_SHIFT`).
pub const MOVE_MASK_CAP: u32 = 0x01C0_0000;

// Promotion piece types, pre-shifted into their field.
pub const PROM_NONE: u32 = 0;
pub const PROM_KNIGHT: u32 = 1u32 << 19;
pub const PROM_BISHOP: u32 = 2u32 << 19;
pub const PROM_ROOK: u32 = 3u32 << 19;
pub const PROM_QUEEN: u32 = 4u32 << 19;

// Captured piece types, pre-shifted into their field.
pub const CAP_PAWN: u32 = 0;
pub const CAP_KNIGHT: u32 = 1u32 << 22;
pub const CAP_BISHOP: u32 = 2u32 << 22;
pub const CAP_ROOK: u32 = 3u32 << 22;
pub const CAP_QUEEN: u32 = 4u32 << 22;

} // verus!

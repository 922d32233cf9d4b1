//! The plain value types of the board model and their primitive
//! operations: coordinates, bitboards, castling rights and the packed
//! move encoding.

use vstd::prelude::*;
use crate::bits::bit64;
use crate::bits::bswap64;
use crate::constants::CAP_SHIFT;
use crate::constants::MOVE_CAPTURE;
use crate::constants::MOVE_CASTLING;
use crate::constants::MOVE_DOUBLE_PUSH;
use crate::constants::MOVE_ENPASSANT;
use crate::constants::MOVE_NORMAL;
use crate::constants::MOVE_PROMOTION;
use crate::constants::MOVE_PROM_CAP;
use crate::constants::PROM_SHIFT;

verus! {

/// A board rank, 0 (rank 1) through 7 (rank 8).
#[derive(Eq, PartialEq, Copy, Clone, Structural, Debug)]
pub struct Rank(pub u8);

/// A board file, 0 (file a) through 7 (file h).
#[derive(Eq, PartialEq, Copy, Clone, Structural, Debug)]
pub struct File(pub u8);

/// A square index 0..63 (0 = a1, 63 = h8), or 64 as the reserved
/// "no square" sentinel used for a missing en-passant target.
#[derive(Eq, PartialEq, Copy, Clone, Structural, Debug)]
pub struct Square(pub u8);

/// A piece type index 0..5 (pawn, knight, bishop, rook, queen, king);
/// 6 is the "none" sentinel returned by lookups on empty squares.
#[derive(Eq, PartialEq, Copy, Clone, Structural, Debug)]
pub struct PieceType(pub u8);

/// A color index: 0 for White (also "us"), 1 for Black (also "them").
#[derive(Eq, PartialEq, Copy, Clone, Structural, Debug)]
pub struct Color(pub u8);

/// A piece type together with its color.
#[derive(Eq, PartialEq, Copy, Clone, Structural, Debug)]
pub struct ColoredPiece(pub PieceType, pub Color);

/// A 4-bit castling-rights mask; see the `*_SIDE_BIT` constants.
#[derive(Eq, PartialEq, Copy, Clone, Structural, Debug)]
pub struct CastlingRights(pub u8);

/// A 64-bit set of squares: bit `i` is set iff square `i` has the
/// modeled property.
#[derive(Eq, PartialEq, Copy, Clone, Structural, Debug)]
pub struct Bitboard(pub u64);

/// A move packed into one integer:
/// bits 0-5 the origin square, bits 6-11 the destination square,
/// bits 12-18 a one-hot move-kind flag, bits 19-21 the promotion
/// piece type, bits 22-24 the captured piece type.
#[derive(Eq, PartialEq, Copy, Clone, Structural, Debug)]
pub struct Move(pub u32);

/// The ordered stages of the FEN decoder's state machine.
#[derive(Eq, PartialEq, Copy, Clone, Structural, Debug)]
pub enum FenStage {
    Pieces,
    SideToMove,
    CastlingRights,
    EnpassantSquare,
    HalfMoves,
    FullMoves,
    Done,
}

/// The origin square encoded in a packed move.
pub open spec fn mv_from(m: u32) -> u8 {
    (m & 0x3f) as u8
}

/// The destination square encoded in a packed move.
pub open spec fn mv_to(m: u32) -> u8 {
    ((m >> 6) & 0x3f) as u8
}

/// The promotion piece type encoded in a packed move.
pub open spec fn mv_prom(m: u32) -> u8 {
    ((m >> 19) & 7) as u8
}

/// The captured piece type encoded in a packed move.
pub open spec fn mv_cap(m: u32) -> u8 {
    ((m >> 22) & 0xff) as u8
}

/// Whether any of the kind flags in `kind` is set in the packed move.
pub open spec fn mv_is(m: u32, kind: u32) -> bool {
    m & kind != 0
}

/// A well-formed move has exactly one of the seven kind flags set.
pub open spec fn wf_move(m: u32) -> bool {
    (if mv_is(m, MOVE_NORMAL) { 1int } else { 0 })
        + (if mv_is(m, MOVE_CAPTURE) { 1int } else { 0 })
        + (if mv_is(m, MOVE_DOUBLE_PUSH) { 1int } else { 0 })
        + (if mv_is(m, MOVE_ENPASSANT) { 1int } else { 0 })
        + (if mv_is(m, MOVE_CASTLING) { 1int } else { 0 })
        + (if mv_is(m, MOVE_PROM_CAP) { 1int } else { 0 })
        + (if mv_is(m, MOVE_PROMOTION) { 1int } else { 0 }) == 1
}

impl Move {
    /// A quiet move of one piece from `from` to `to`.
    pub fn normal(from: Square, to: Square) -> (r: Move)
        requires
            from.0 < 64,
            to.0 < 64,
        ensures
            r.0 == (from.0 as u32) | ((to.0 as u32) << 6) | MOVE_NORMAL,
            mv_from(r.0) == from.0,
            mv_to(r.0) == to.0,
            mv_prom(r.0) == 0,
            mv_cap(r.0) == 0,
            mv_is(r.0, MOVE_NORMAL) && !mv_is(r.0, MOVE_CAPTURE) && !mv_is(r.0, MOVE_DOUBLE_PUSH)
                && !mv_is(r.0, MOVE_ENPASSANT) && !mv_is(r.0, MOVE_CASTLING)
                && !mv_is(r.0, MOVE_PROM_CAP) && !mv_is(r.0, MOVE_PROMOTION),
            wf_move(r.0),
    {
        let f: u32 = from.0 as u32;
        let t: u32 = to.0 as u32;
        let e: u32 = f | (t << 6) | MOVE_NORMAL;
        proof {
            assert(e & 0x3f == f && (e >> 6) & 0x3f == t && (e >> 19) & 7 == 0 && (e >> 22)
                & 0xff == 0 && e & 0x1000u32 != 0 && e & 0x2000u32 == 0 && e & 0x4000u32 == 0 && e
                & 0x8000u32 == 0 && e & 0x10000u32 == 0 && e & 0x20000u32 == 0 && e
                & 0x40000u32 == 0) by (bit_vector)
                requires
                    f < 64,
                    t < 64,
                    e == f | (t << 6) | 0x1000u32,
            ;
        }
        Move(e)
    }

    /// A capture: `cap_type` is the captured piece type already
    /// shifted into its field (one of the `CAP_*` constants).
    pub fn capture(from: Square, to: Square, cap_type: u32) -> (r: Move)
        requires
            from.0 < 64,
            to.0 < 64,
            cap_type & !0x01C0_0000u32 == 0,
        ensures
            r.0 == (from.0 as u32) | ((to.0 as u32) << 6) | MOVE_CAPTURE | cap_type,
            mv_from(r.0) == from.0,
            mv_to(r.0) == to.0,
            mv_prom(r.0) == 0,
            mv_cap(r.0) == cap_type >> CAP_SHIFT,
            mv_is(r.0, MOVE_CAPTURE) && !mv_is(r.0, MOVE_NORMAL) && !mv_is(r.0, MOVE_DOUBLE_PUSH)
                && !mv_is(r.0, MOVE_ENPASSANT) && !mv_is(r.0, MOVE_CASTLING)
                && !mv_is(r.0, MOVE_PROM_CAP) && !mv_is(r.0, MOVE_PROMOTION),
            wf_move(r.0),
    {
        let f: u32 = from.0 as u32;
        let t: u32 = to.0 as u32;
        let e: u32 = f | (t << 6) | MOVE_CAPTURE | cap_type;
        proof {
            assert(e & 0x3f == f && (e >> 6) & 0x3f == t && (e >> 19) & 7 == 0 && (e >> 22)
                & 0xff == cap_type >> 22 && cap_type >> 22 < 8 && e & 0x2000u32 != 0 && e
                & 0x1000u32 == 0 && e & 0x4000u32 == 0 && e & 0x8000u32 == 0 && e
                & 0x10000u32 == 0 && e & 0x20000u32 == 0 && e & 0x40000u32 == 0) by (bit_vector)
                requires
                    f < 64,
                    t < 64,
                    cap_type & !0x01C0_0000u32 == 0,
                    e == f | (t << 6) | 0x2000u32 | cap_type,
            ;
        }
        Move(e)
    }

    /// A promotion: `prom_type` is the promotion piece type already
    /// shifted into its field (one of the `PROM_*` constants). The
    /// `cap_type` argument is ignored; it exists so that promotion
    /// and promotion-capture share a calling shape.
    pub fn promotion(from: Square, to: Square, prom_type: u32, cap_type: u32) -> (r: Move)
        requires
            from.0 < 64,
            to.0 < 64,
            prom_type & !0x0038_0000u32 == 0,
        ensures
            r.0 == (from.0 as u32) | ((to.0 as u32) << 6) | MOVE_PROMOTION | prom_type,
            mv_from(r.0) == from.0,
            mv_to(r.0) == to.0,
            mv_prom(r.0) == prom_type >> PROM_SHIFT,
            mv_cap(r.0) == 0,
            mv_is(r.0, MOVE_PROMOTION) && !mv_is(r.0, MOVE_NORMAL) && !mv_is(r.0, MOVE_CAPTURE)
                && !mv_is(r.0, MOVE_DOUBLE_PUSH) && !mv_is(r.0, MOVE_ENPASSANT)
                && !mv_is(r.0, MOVE_CASTLING) && !mv_is(r.0, MOVE_PROM_CAP),
            wf_move(r.0),
    {
        let f: u32 = from.0 as u32;
        let t: u32 = to.0 as u32;
        let e: u32 = f | (t << 6) | MOVE_PROMOTION | prom_type;
        proof {
            assert(e & 0x3f == f && (e >> 6) & 0x3f == t && (e >> 19) & 7 == prom_type >> 19
                && prom_type >> 19 < 8 && (e >> 22) & 0xff == 0 && e & 0x40000u32 != 0 && e
                & 0x1000u32 == 0 && e & 0x2000u32 == 0 && e & 0x4000u32 == 0 && e
                & 0x8000u32 == 0 && e & 0x10000u32 == 0 && e & 0x20000u32 == 0) by (bit_vector)
                requires
                    f < 64,
                    t < 64,
                    prom_type & !0x0038_0000u32 == 0,
                    e == f | (t << 6) | 0x40000u32 | prom_type,
            ;
        }
        let _ = cap_type;
        Move(e)
    }

    /// A two-rank pawn push; it is the only move that leaves an
    /// en-passant target behind.
    pub fn double_push(from: Square, to: Square) -> (r: Move)
        requires
            from.0 < 64,
            to.0 < 64,
        ensures
            r.0 == (from.0 as u32) | ((to.0 as u32) << 6) | MOVE_DOUBLE_PUSH,
            mv_from(r.0) == from.0,
            mv_to(r.0) == to.0,
            mv_prom(r.0) == 0,
            mv_cap(r.0) == 0,
            mv_is(r.0, MOVE_DOUBLE_PUSH) && !mv_is(r.0, MOVE_NORMAL) && !mv_is(r.0, MOVE_CAPTURE)
                && !mv_is(r.0, MOVE_ENPASSANT) && !mv_is(r.0, MOVE_CASTLING)
                && !mv_is(r.0, MOVE_PROM_CAP) && !mv_is(r.0, MOVE_PROMOTION),
            wf_move(r.0),
    {
        let f: u32 = from.0 as u32;
        let t: u32 = to.0 as u32;
        let e: u32 = f | (t << 6) | MOVE_DOUBLE_PUSH;
        proof {
            assert(e & 0x3f == f && (e >> 6) & 0x3f == t && (e >> 19) & 7 == 0 && (e >> 22)
                & 0xff == 0 && e & 0x4000u32 != 0 && e & 0x1000u32 == 0 && e & 0x2000u32 == 0 && e
                & 0x8000u32 == 0 && e & 0x10000u32 == 0 && e & 0x20000u32 == 0 && e
                & 0x40000u32 == 0) by (bit_vector)
                requires
                    f < 64,
                    t < 64,
                    e == f | (t << 6) | 0x4000u32,
            ;
        }
        Move(e)
    }

    /// A castling move, encoded by the king's origin and destination.
    pub fn castle(from: Square, to: Square) -> (r: Move)
        requires
            from.0 < 64,
            to.0 < 64,
        ensures
            r.0 == (from.0 as u32) | ((to.0 as u32) << 6) | MOVE_CASTLING,
            mv_from(r.0) == from.0,
            mv_to(r.0) == to.0,
            mv_prom(r.0) == 0,
            mv_cap(r.0) == 0,
            mv_is(r.0, MOVE_CASTLING) && !mv_is(r.0, MOVE_NORMAL) && !mv_is(r.0, MOVE_CAPTURE)
                && !mv_is(r.0, MOVE_DOUBLE_PUSH) && !mv_is(r.0, MOVE_ENPASSANT)
                && !mv_is(r.0, MOVE_PROM_CAP) && !mv_is(r.0, MOVE_PROMOTION),
            wf_move(r.0),
    {
        let f: u32 = from.0 as u32;
        let t: u32 = to.0 as u32;
        let e: u32 = f | (t << 6) | MOVE_CASTLING;
        proof {
            assert(e & 0x3f == f && (e >> 6) & 0x3f == t && (e >> 19) & 7 == 0 && (e >> 22)
                & 0xff == 0 && e & 0x10000u32 != 0 && e & 0x1000u32 == 0 && e & 0x2000u32 == 0 && e
                & 0x4000u32 == 0 && e & 0x8000u32 == 0 && e & 0x20000u32 == 0 && e
                & 0x40000u32 == 0) by (bit_vector)
                requires
                    f < 64,
                    t < 64,
                    e == f | (t << 6) | 0x10000u32,
            ;
        }
        Move(e)
    }

    /// A capture on the back rank that also promotes the pawn.
    pub fn promotion_capture(from: Square, to: Square, prom_type: u32, cap_type: u32) -> (r: Move)
        requires
            from.0 < 64,
            to.0 < 64,
            prom_type & !0x0038_0000u32 == 0,
            cap_type & !0x01C0_0000u32 == 0,
        ensures
            r.0 == (from.0 as u32) | ((to.0 as u32) << 6) | MOVE_PROM_CAP | prom_type | cap_type,
            mv_from(r.0) == from.0,
            mv_to(r.0) == to.0,
            mv_prom(r.0) == prom_type >> PROM_SHIFT,
            mv_cap(r.0) == cap_type >> CAP_SHIFT,
            mv_is(r.0, MOVE_PROM_CAP) && !mv_is(r.0, MOVE_NORMAL) && !mv_is(r.0, MOVE_CAPTURE)
                && !mv_is(r.0, MOVE_DOUBLE_PUSH) && !mv_is(r.0, MOVE_ENPASSANT)
                && !mv_is(r.0, MOVE_CASTLING) && !mv_is(r.0, MOVE_PROMOTION),
            wf_move(r.0),
    {
        let f: u32 = from.0 as u32;
        let t: u32 = to.0 as u32;
        let e: u32 = f | (t << 6) | MOVE_PROM_CAP | prom_type | cap_type;
        proof {
            assert(e & 0x3f == f && (e >> 6) & 0x3f == t && (e >> 19) & 7 == prom_type >> 19
                && prom_type >> 19 < 8 && (e >> 22) & 0xff == cap_type >> 22 && cap_type
                >> 22 < 8 && e & 0x20000u32 != 0 && e & 0x1000u32 == 0 && e & 0x2000u32 == 0 && e
                & 0x4000u32 == 0 && e & 0x8000u32 == 0 && e & 0x10000u32 == 0 && e
                & 0x40000u32 == 0) by (bit_vector)
                requires
                    f < 64,
                    t < 64,
                    prom_type & !0x0038_0000u32 == 0,
                    cap_type & !0x01C0_0000u32 == 0,
                    e == f | (t << 6) | 0x20000u32 | prom_type | cap_type,
            ;
        }
        Move(e)
    }

    /// An en-passant capture of the pawn behind the recorded target.
    pub fn enpassant(from: Square, to: Square) -> (r: Move)
        requires
            from.0 < 64,
            to.0 < 64,
        ensures
            r.0 == (from.0 as u32) | ((to.0 as u32) << 6) | MOVE_ENPASSANT,
            mv_from(r.0) == from.0,
            mv_to(r.0) == to.0,
            mv_prom(r.0) == 0,
            mv_cap(r.0) == 0,
            mv_is(r.0, MOVE_ENPASSANT) && !mv_is(r.0, MOVE_NORMAL) && !mv_is(r.0, MOVE_CAPTURE)
                && !mv_is(r.0, MOVE_DOUBLE_PUSH) && !mv_is(r.0, MOVE_CASTLING)
                && !mv_is(r.0, MOVE_PROM_CAP) && !mv_is(r.0, MOVE_PROMOTION),
            wf_move(r.0),
    {
        let f: u32 = from.0 as u32;
        let t: u32 = to.0 as u32;
        let e: u32 = f | (t << 6) | MOVE_ENPASSANT;
        proof {
            assert(e & 0x3f == f && (e >> 6) & 0x3f == t && (e >> 19) & 7 == 0 && (e >> 22)
                & 0xff == 0 && e & 0x8000u32 != 0 && e & 0x1000u32 == 0 && e & 0x2000u32 == 0 && e
                & 0x4000u32 == 0 && e & 0x10000u32 == 0 && e & 0x20000u32 == 0 && e
                & 0x40000u32 == 0) by (bit_vector)
                requires
                    f < 64,
                    t < 64,
                    e == f | (t << 6) | 0x8000u32,
            ;
        }
        Move(e)
    }

    /// The origin square of the move.
    pub fn from_square(&self) -> (r: Square)
        ensures
            r.0 == mv_from(self.0),
            r.0 < 64,
    {
        let m = self.0;
        proof {
            assert(m & 0x3f < 64) by (bit_vector);
        }
        Square((m & 0x3f) as u8)
    }

    /// The destination square of the move.
    pub fn to_square(&self) -> (r: Square)
        ensures
            r.0 == mv_to(self.0),
            r.0 < 64,
    {
        let m = self.0;
        proof {
            assert((m >> 6) & 0x3f < 64) by (bit_vector);
        }
        Square(((m >> 6) & 0x3f) as u8)
    }

    /// The promotion piece type; meaningful only for promotion kinds.
    pub fn promotion_type(&self) -> (r: PieceType)
        ensures
            r.0 == mv_prom(self.0),
            r.0 < 8,
    {
        let m = self.0;
        proof {
            assert((m >> 19) & 7 < 8) by (bit_vector);
        }
        PieceType(((m >> 19) & 7) as u8)
    }

    /// The captured piece type; meaningful only for capture kinds.
    pub fn capture_type(&self) -> (r: PieceType)
        ensures
            r.0 == mv_cap(self.0),
    {
        let m = self.0;
        proof {
            assert((m >> 22) & 0xff < 256) by (bit_vector);
        }
        PieceType(((m >> 22) & 0xff) as u8)
    }

    /// Whether any of the kind flags in `move_type` is set.
    pub fn is_move_type(&self, move_type: u32) -> (r: bool)
        ensures
            r == mv_is(self.0, move_type),
    {
        (self.0 & move_type) != 0
    }
}

/// The move encoding round-trips: a packed move built from any valid
/// origin and destination, any one move-kind flag, and any promotion
/// and capture fields decodes to exactly the origin, destination,
/// kind, promotion type and captured type that were encoded.
pub proof fn lemma_move_codec_roundtrip(f: u8, t: u8, kind: u32, prom: u32, cap: u32)
    requires
        f < 64,
        t < 64,
        kind == MOVE_NORMAL || kind == MOVE_CAPTURE || kind == MOVE_DOUBLE_PUSH || kind
            == MOVE_ENPASSANT || kind == MOVE_CASTLING || kind == MOVE_PROM_CAP || kind
            == MOVE_PROMOTION,
        prom & !0x0038_0000u32 == 0,
        cap & !0x01C0_0000u32 == 0,
    ensures
        ({
            let m = (f as u32) | ((t as u32) << 6) | kind | prom | cap;
            &&& mv_from(m) == f
            &&& mv_to(m) == t
            &&& mv_is(m, kind)
            &&& mv_prom(m) == prom >> PROM_SHIFT
            &&& mv_cap(m) == cap >> CAP_SHIFT
            &&& wf_move(m)
        }),
{
    let fu = f as u32;
    let tu = t as u32;
    let m = fu | (tu << 6) | kind | prom | cap;
    assert(m & 0x3f == fu && (m >> 6) & 0x3f == tu && (m >> 19) & 7 == prom >> 19 && prom
        >> 19 < 8 && (m >> 22) & 0xff == cap >> 22 && cap >> 22 < 8 && m & kind != 0 && (m
        & 0x1000u32 != 0) == (kind == 0x1000u32) && (m & 0x2000u32 != 0) == (kind == 0x2000u32)
        && (m & 0x4000u32 != 0) == (kind == 0x4000u32) && (m & 0x8000u32 != 0) == (kind
        == 0x8000u32) && (m & 0x10000u32 != 0) == (kind == 0x10000u32) && (m & 0x20000u32 != 0)
        == (kind == 0x20000u32) && (m & 0x40000u32 != 0) == (kind == 0x40000u32)) by (bit_vector)
        requires
            fu < 64,
            tu < 64,
            kind == 0x1000u32 || kind == 0x2000u32 || kind == 0x4000u32 || kind == 0x8000u32
                || kind == 0x10000u32 || kind == 0x20000u32 || kind == 0x40000u32,
            prom & !0x0038_0000u32 == 0,
            cap & !0x01C0_0000u32 == 0,
            m == fu | (tu << 6) | kind | prom | cap,
    ;
}

impl Bitboard {
    /// The intersection of two square sets.
    pub fn bit_and(&self, rhs: Bitboard) -> (r: Bitboard)
        ensures
            r.0 == self.0 & rhs.0,
    {
        Bitboard(self.0 & rhs.0)
    }

    /// The union of two square sets.
    pub fn bit_or(&self, rhs: Bitboard) -> (r: Bitboard)
        ensures
            r.0 == self.0 | rhs.0,
    {
        Bitboard(self.0 | rhs.0)
    }

    /// The symmetric difference of two square sets.
    pub fn bit_xor(&self, rhs: Bitboard) -> (r: Bitboard)
        ensures
            r.0 == self.0 ^ rhs.0,
    {
        Bitboard(self.0 ^ rhs.0)
    }

    /// The bitboard with exactly the bit of square `shift` set.
    pub fn from_shift(shift: u8) -> (r: Bitboard)
        requires
            shift < 64,
        ensures
            r.0 == 1u64 << shift,
            forall|i: u64| i < 64 ==> #[trigger] bit64(r.0, i) == (i == shift),
    {
        proof {
            broadcast use crate::bits::group_bits;

        }
        Bitboard(1u64 << shift)
    }

    /// The bitboard with its byte order reversed, mirroring the board
    /// through its horizontal axis (square `i` maps to `i ^ 56`).
    pub fn swap_bytes(&self) -> (r: Bitboard)
        ensures
            r.0 == bswap64(self.0),
    {
        let x = self.0;
        Bitboard(
            ((x & 0xff) << 56) | ((x & 0xff00) << 40) | ((x & 0xff_0000) << 24) | ((x & 0xff00_0000)
                << 8) | ((x >> 8) & 0xff00_0000) | ((x >> 24) & 0xff_0000) | ((x >> 40) & 0xff00)
                | (x >> 56),
        )
    }

    /// The index of the least significant set bit, or 64 on the empty
    /// bitboard.
    pub fn lsb(&self) -> (r: u32)
        ensures
            self.0 == 0 ==> r == 64,
            self.0 != 0 ==> r < 64 && bit64(self.0, r as u64) && forall|j: u64|
                j < r ==> !#[trigger] bit64(self.0, j),
    {
        let r = self.0.trailing_zeros();
        proof {
            broadcast use crate::bits::group_bits;

            vstd::std_specs::bits::axiom_u64_trailing_zeros(self.0);
            if self.0 != 0 {
                assert(bit64(self.0, r as u64));
                assert forall|j: u64| j < r implies !#[trigger] bit64(self.0, j) by {
                    assert((self.0 >> j) & 1u64 == 0u64);
                }
            }
        }
        r
    }
}

impl Square {
    /// The square at the given file and rank.
    pub fn new(file: File, rank: Rank) -> (r: Square)
        requires
            file.0 < 8,
            rank.0 < 8,
        ensures
            r.0 == file.0 + rank.0 * 8,
            r.0 < 64,
    {
        Square(file.0 + rank.0 * 8)
    }

    /// The rank of the square.
    pub fn rank(&self) -> (r: Rank)
        requires
            self.0 < 64,
        ensures
            r.0 == self.0 / 8,
            r.0 < 8,
    {
        Rank(self.0 / 8)
    }

    /// The file of the square.
    pub fn file(&self) -> (r: File)
        requires
            self.0 < 64,
        ensures
            r.0 == self.0 % 8,
            r.0 < 8,
    {
        File(self.0 % 8)
    }
}

impl CastlingRights {
    /// Whether any right in `cr` is present in this mask.
    pub fn allows(&self, cr: CastlingRights) -> (r: bool)
        ensures
            r == (self.0 & cr.0 != 0),
    {
        self.0 & cr.0 != 0
    }

    /// Narrows this mask to the rights that `survivors` keeps alive.
    pub fn spoil(&mut self, survivors: CastlingRights)
        ensures
            final(self).0 == old(self).0 & survivors.0,
    {
        self.0 = self.0 & survivors.0;
    }
}

} // verus!

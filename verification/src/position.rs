//! The position value and its transition logic: the occupancy
//! invariant, the perspective flip, and `make_move`, which advances
//! the game by one ply.

use vstd::prelude::*;
use crate::bits::bit64;
use crate::bits::bswap64;
use crate::bits::group_bits;
use crate::bits::lemma_bit_single;
use crate::bits::lemma_bit_xor;
use crate::constants::MOVE_CAPTURE;
use crate::constants::MOVE_CASTLING;
use crate::constants::MOVE_DOUBLE_PUSH;
use crate::constants::MOVE_ENPASSANT;
use crate::constants::MOVE_NORMAL;
use crate::constants::MOVE_PROMOTION;
use crate::constants::MOVE_PROM_CAP;
use crate::constants::SQUARE_INVALID_IDX;
use crate::types::mv_from;
use crate::types::mv_is;
use crate::types::mv_prom;
use crate::types::mv_to;
use crate::types::wf_move;
use crate::types::Bitboard;
use crate::types::CastlingRights;
use crate::types::Color;
use crate::types::Move;
use crate::types::PieceType;
use crate::types::Square;

verus! {

/// A chess position. The bitboards are stored from the perspective of
/// the side to move: `white` always holds the mover's pieces, `black`
/// the opponent's, and the board is mirrored after every ply so that
/// this stays true.
#[derive(Eq, PartialEq, Copy, Clone, Structural, Debug)]
pub struct Position {
    /// One bitboard per piece type, both colors mixed.
    pub pawns: Bitboard,
    pub knights: Bitboard,
    pub bishops: Bitboard,
    pub rooks: Bitboard,
    pub queens: Bitboard,
    pub kings: Bitboard,
    /// The mover's pieces (index 0, "white" in the internal convention).
    pub white: Bitboard,
    /// The opponent's pieces (index 1).
    pub black: Bitboard,
    /// The en-passant target square, or the invalid sentinel (64).
    pub enpassant_sq: Square,
    /// The 4-bit castling-rights mask.
    pub castling_rights: CastlingRights,
    /// The color whose turn it is, in the external (unflipped) sense.
    pub side_to_move: Color,
    /// Plies since the last pawn move or capture (fifty-move clock).
    pub halfmoves: u8,
    /// The full-move counter from the FEN source.
    pub fullmoves: u32,
}

/// The piece-type bitboard with index `k` (0 = pawns .. 5 = kings).
pub open spec fn plane(p: Position, k: int) -> u64 {
    if k == 0 {
        p.pawns.0
    } else if k == 1 {
        p.knights.0
    } else if k == 2 {
        p.bishops.0
    } else if k == 3 {
        p.rooks.0
    } else if k == 4 {
        p.queens.0
    } else {
        p.kings.0
    }
}

/// The color bitboard with index `c` (0 = us, 1 = them).
pub open spec fn colr(p: Position, c: int) -> u64 {
    if c == 0 {
        p.white.0
    } else {
        p.black.0
    }
}

/// How many piece-type bitboards cover square `i`.
pub open spec fn plane_count(p: Position, i: u64) -> int {
    (if bit64(plane(p, 0), i) {
        1int
    } else {
        0
    }) + (if bit64(plane(p, 1), i) {
        1int
    } else {
        0
    }) + (if bit64(plane(p, 2), i) {
        1int
    } else {
        0
    }) + (if bit64(plane(p, 3), i) {
        1int
    } else {
        0
    }) + (if bit64(plane(p, 4), i) {
        1int
    } else {
        0
    }) + (if bit64(plane(p, 5), i) {
        1int
    } else {
        0
    })
}

/// Whether any piece-type bitboard covers square `i`.
pub open spec fn covered(p: Position, i: u64) -> bool {
    plane_count(p, i) >= 1
}

/// Occupancy consistency at one square: at most one piece-type
/// bitboard and at most one color bitboard cover it, and the color
/// bitboards together cover exactly the squares the piece-type
/// bitboards cover.
pub open spec fn inv_at(p: Position, i: u64) -> bool {
    &&& plane_count(p, i) <= 1
    &&& !(bit64(colr(p, 0), i) && bit64(colr(p, 1), i))
    &&& (bit64(colr(p, 0), i) || bit64(colr(p, 1), i)) == covered(p, i)
}

/// Occupancy consistency of the whole board.
pub open spec fn inv(p: Position) -> bool {
    forall|i: u64| i < 64 ==> #[trigger] inv_at(p, i)
}

/// Validity of the scalar fields: the en-passant square is a square
/// or the sentinel, the castling mask has only its four bits, and the
/// side to move is one of the two colors.
pub open spec fn wf_scalars(p: Position) -> bool {
    &&& p.enpassant_sq.0 <= 64
    &&& p.castling_rights.0 < 16
    &&& p.side_to_move.0 < 2
}

/// A well-formed position.
pub open spec fn wf(p: Position) -> bool {
    inv(p) && wf_scalars(p)
}

/// The piece type on square `i`: the first covering bitboard's index,
/// or 6 when the square is empty.
pub open spec fn piece_at(p: Position, i: u64) -> u8 {
    if bit64(plane(p, 0), i) {
        0
    } else if bit64(plane(p, 1), i) {
        1
    } else if bit64(plane(p, 2), i) {
        2
    } else if bit64(plane(p, 3), i) {
        3
    } else if bit64(plane(p, 4), i) {
        4
    } else if bit64(plane(p, 5), i) {
        5
    } else {
        6
    }
}

/// `p` with the bit of square `sq` toggled in piece plane `pt` and
/// color plane `c`; every other field is unchanged.
pub open spec fn toggle_spec(p: Position, sq: u8, pt: u8, c: u8) -> Position {
    let m = 1u64 << (sq as u64);
    Position {
        pawns: Bitboard(
            if pt == 0 {
                p.pawns.0 ^ m
            } else {
                p.pawns.0
            },
        ),
        knights: Bitboard(
            if pt == 1 {
                p.knights.0 ^ m
            } else {
                p.knights.0
            },
        ),
        bishops: Bitboard(
            if pt == 2 {
                p.bishops.0 ^ m
            } else {
                p.bishops.0
            },
        ),
        rooks: Bitboard(
            if pt == 3 {
                p.rooks.0 ^ m
            } else {
                p.rooks.0
            },
        ),
        queens: Bitboard(
            if pt == 4 {
                p.queens.0 ^ m
            } else {
                p.queens.0
            },
        ),
        kings: Bitboard(
            if pt == 5 {
                p.kings.0 ^ m
            } else {
                p.kings.0
            },
        ),
        white: Bitboard(
            if c == 0 {
                p.white.0 ^ m
            } else {
                p.white.0
            },
        ),
        black: Bitboard(
            if c == 1 {
                p.black.0 ^ m
            } else {
                p.black.0
            },
        ),
        ..p
    }
}

/// Moving a piece is toggling it off its origin and onto its
/// destination.
pub open spec fn move_spec(p: Position, from: u8, to: u8, pt: u8, c: u8) -> Position {
    toggle_spec(toggle_spec(p, from, pt, c), to, pt, c)
}

/// The mirrored position: every bitboard byte-swapped, the color
/// bitboards exchanged, the en-passant square mirrored, the castling
/// mask's color pairs exchanged and the side to move inverted.
pub open spec fn flip_spec(p: Position) -> Position {
    Position {
        pawns: Bitboard(bswap64(p.pawns.0)),
        knights: Bitboard(bswap64(p.knights.0)),
        bishops: Bitboard(bswap64(p.bishops.0)),
        rooks: Bitboard(bswap64(p.rooks.0)),
        queens: Bitboard(bswap64(p.queens.0)),
        kings: Bitboard(bswap64(p.kings.0)),
        white: Bitboard(bswap64(p.black.0)),
        black: Bitboard(bswap64(p.white.0)),
        enpassant_sq: Square(
            if p.enpassant_sq.0 == SQUARE_INVALID_IDX {
                SQUARE_INVALID_IDX
            } else {
                p.enpassant_sq.0 ^ 56
            },
        ),
        castling_rights: CastlingRights(
            (p.castling_rights.0 >> 2) ^ ((p.castling_rights.0 & 3) << 2),
        ),
        side_to_move: Color(p.side_to_move.0 ^ 1),
        halfmoves: p.halfmoves,
        fullmoves: p.fullmoves,
    }
}

impl Position {
    /// Mirrors the position in place; see `flip_spec`.
    pub fn flip(&mut self)
        ensures
            *final(self) == flip_spec(*old(self)),
    {
        self.pawns = self.pawns.swap_bytes();
        self.knights = self.knights.swap_bytes();
        self.bishops = self.bishops.swap_bytes();
        self.rooks = self.rooks.swap_bytes();
        self.queens = self.queens.swap_bytes();
        self.kings = self.kings.swap_bytes();
        let w = self.white;
        self.white = self.black.swap_bytes();
        self.black = w.swap_bytes();
        if self.enpassant_sq.0 != SQUARE_INVALID_IDX {
            self.enpassant_sq.0 = self.enpassant_sq.0 ^ 56;
        }
        let tmp_cr = (self.castling_rights.0 & 3) << 2;
        self.castling_rights.0 = self.castling_rights.0 >> 2;
        self.castling_rights.0 = self.castling_rights.0 ^ tmp_cr;
        self.side_to_move.0 = self.side_to_move.0 ^ 1;
    }

    /// The mirrored position as a new value; see `flip_spec`.
    pub fn flipped(&self) -> (r: Position)
        ensures
            r == flip_spec(*self),
    {
        let mut pos = self.clone();
        pos.flip();
        pos
    }

    /// The piece type on `sq`, or the "none" sentinel on an empty
    /// square.
    pub fn piece_type_on(&self, sq: &Square) -> (r: PieceType)
        requires
            sq.0 < 64,
        ensures
            r.0 == piece_at(*self, sq.0 as u64),
    {
        let sh: u64 = sq.0 as u64;
        let sq_bb: u64 = 1u64 << sh;
        if self.pawns.0 & sq_bb != 0 {
            PieceType(0)
        } else if self.knights.0 & sq_bb != 0 {
            PieceType(1)
        } else if self.bishops.0 & sq_bb != 0 {
            PieceType(2)
        } else if self.rooks.0 & sq_bb != 0 {
            PieceType(3)
        } else if self.queens.0 & sq_bb != 0 {
            PieceType(4)
        } else if self.kings.0 & sq_bb != 0 {
            PieceType(5)
        } else {
            PieceType(6)
        }
    }

    /// Toggles the bit of `sq` in the piece plane of `pt` and the
    /// color plane of `color`.
    fn toggle_piece(&mut self, sq: &Square, pt: &PieceType, color: &Color)
        requires
            sq.0 < 64,
            pt.0 < 6,
            color.0 < 2,
        ensures
            *final(self) == toggle_spec(*old(self), sq.0, pt.0, color.0),
    {
        let sh: u64 = sq.0 as u64;
        let mask: u64 = 1u64 << sh;
        if color.0 == 0 {
            self.white.0 = self.white.0 ^ mask;
        } else {
            self.black.0 = self.black.0 ^ mask;
        }
        if pt.0 == 0 {
            self.pawns.0 = self.pawns.0 ^ mask;
        } else if pt.0 == 1 {
            self.knights.0 = self.knights.0 ^ mask;
        } else if pt.0 == 2 {
            self.bishops.0 = self.bishops.0 ^ mask;
        } else if pt.0 == 3 {
            self.rooks.0 = self.rooks.0 ^ mask;
        } else if pt.0 == 4 {
            self.queens.0 = self.queens.0 ^ mask;
        } else {
            self.kings.0 = self.kings.0 ^ mask;
        }
    }

    /// Moves the piece of type `pt` and color `color` from `from` to
    /// `to` by toggling both squares' bits in both planes.
    fn move_piece(&mut self, from: &Square, to: &Square, pt: &PieceType, color: &Color)
        requires
            from.0 < 64,
            to.0 < 64,
            pt.0 < 6,
            color.0 < 2,
        ensures
            *final(self) == move_spec(*old(self), from.0, to.0, pt.0, color.0),
    {
        let from_sh: u64 = from.0 as u64;
        let to_sh: u64 = to.0 as u64;
        let from_bb: u64 = 1u64 << from_sh;
        let to_bb: u64 = 1u64 << to_sh;
        let from_to_mask: u64 = from_bb ^ to_bb;
        proof {
            lemma_xor_twice(self.white.0, from_bb, to_bb);
            lemma_xor_twice(self.black.0, from_bb, to_bb);
            lemma_xor_twice(self.pawns.0, from_bb, to_bb);
            lemma_xor_twice(self.knights.0, from_bb, to_bb);
            lemma_xor_twice(self.bishops.0, from_bb, to_bb);
            lemma_xor_twice(self.rooks.0, from_bb, to_bb);
            lemma_xor_twice(self.queens.0, from_bb, to_bb);
            lemma_xor_twice(self.kings.0, from_bb, to_bb);
        }
        if color.0 == 0 {
            self.white.0 = self.white.0 ^ from_to_mask;
        } else {
            self.black.0 = self.black.0 ^ from_to_mask;
        }
        if pt.0 == 0 {
            self.pawns.0 = self.pawns.0 ^ from_to_mask;
        } else if pt.0 == 1 {
            self.knights.0 = self.knights.0 ^ from_to_mask;
        } else if pt.0 == 2 {
            self.bishops.0 = self.bishops.0 ^ from_to_mask;
        } else if pt.0 == 3 {
            self.rooks.0 = self.rooks.0 ^ from_to_mask;
        } else if pt.0 == 4 {
            self.queens.0 = self.queens.0 ^ from_to_mask;
        } else {
            self.kings.0 = self.kings.0 ^ from_to_mask;
        }
    }

    /// Applies one structurally consistent move and returns the
    /// resulting position, mirrored so that the new side to move is
    /// again the internal "white". The input is never altered, the
    /// result is occupancy-consistent, and its exact value is
    /// `flip_spec(apply_spec(..))`.
    pub fn make_move(&self, m: &Move) -> (r: Position)
        requires
            wf(*self),
            move_ok(*self, m.0),
        ensures
            r == flip_spec(apply_spec(*self, m.0)),
            wf(r),
    {
        let ghost p0 = *self;
        let mut pos = self.clone();
        let from_sq = m.from_square();
        let to_sq = m.to_square();
        let moving_pt = pos.piece_type_on(&from_sq);
        pos.castling_rights.spoil(CastlingRights(castling_spoiler(from_sq.0)));
        pos.castling_rights.spoil(CastlingRights(castling_spoiler(to_sq.0)));
        if moving_pt.0 == 0 {
            pos.halfmoves = 0;
        }
        let ghost p2 = pos;
        proof {
            lemma_inv_same_boards(p0, p2);
            assert(inv_at(p0, from_sq.0 as u64));
            assert(inv_at(p0, to_sq.0 as u64));
        }
        if m.is_move_type(MOVE_NORMAL) {
            pos.move_piece(&from_sq, &to_sq, &moving_pt, &Color(0));
            proof {
                lemma_toggle_preserves_inv(p2, from_sq.0, moving_pt.0, 0);
                lemma_toggle_preserves_inv(
                    toggle_spec(p2, from_sq.0, moving_pt.0, 0),
                    to_sq.0,
                    moving_pt.0,
                    0,
                );
                lemma_inv_same_boards(
                    toggle_spec(toggle_spec(p2, from_sq.0, moving_pt.0, 0), to_sq.0, moving_pt.0, 0),
                    apply_spec(p0, m.0),
                );
            }
        } else if m.is_move_type(MOVE_CAPTURE) {
            let captured_pt = pos.piece_type_on(&to_sq);
            pos.toggle_piece(&to_sq, &captured_pt, &Color(1));
            pos.move_piece(&from_sq, &to_sq, &moving_pt, &Color(0));
            pos.halfmoves = 0;
            proof {
                lemma_toggle_preserves_inv(p2, to_sq.0, captured_pt.0, 1);
                let q1 = toggle_spec(p2, to_sq.0, captured_pt.0, 1);
                lemma_toggle_preserves_inv(q1, from_sq.0, moving_pt.0, 0);
                let q2 = toggle_spec(q1, from_sq.0, moving_pt.0, 0);
                lemma_toggle_preserves_inv(q2, to_sq.0, moving_pt.0, 0);
                lemma_inv_same_boards(toggle_spec(q2, to_sq.0, moving_pt.0, 0), apply_spec(p0, m.0));
            }
        } else if m.is_move_type(MOVE_DOUBLE_PUSH) {
            pos.move_piece(&from_sq, &to_sq, &moving_pt, &Color(0));
            pos.enpassant_sq = Square(to_sq.0 - 8);
            proof {
                lemma_toggle_preserves_inv(p2, from_sq.0, moving_pt.0, 0);
                lemma_toggle_preserves_inv(
                    toggle_spec(p2, from_sq.0, moving_pt.0, 0),
                    to_sq.0,
                    moving_pt.0,
                    0,
                );
                lemma_inv_same_boards(
                    toggle_spec(toggle_spec(p2, from_sq.0, moving_pt.0, 0), to_sq.0, moving_pt.0, 0),
                    apply_spec(p0, m.0),
                );
            }
        } else if m.is_move_type(MOVE_ENPASSANT) {
            pos.move_piece(&from_sq, &to_sq, &moving_pt, &Color(0));
            let ep_sq = pos.enpassant_sq;
            pos.toggle_piece(&ep_sq, &PieceType(0), &Color(1));
            proof {
                assert(inv_at(p0, p0.enpassant_sq.0 as u64));
                lemma_toggle_preserves_inv(p2, from_sq.0, moving_pt.0, 0);
                let q1 = toggle_spec(p2, from_sq.0, moving_pt.0, 0);
                lemma_toggle_preserves_inv(q1, to_sq.0, moving_pt.0, 0);
                let q2 = toggle_spec(q1, to_sq.0, moving_pt.0, 0);
                lemma_toggle_preserves_inv(q2, p0.enpassant_sq.0, 0, 1);
                lemma_inv_same_boards(toggle_spec(q2, p0.enpassant_sq.0, 0, 1), apply_spec(p0, m.0));
            }
        } else if m.is_move_type(MOVE_CASTLING) {
            let (rfrom_sq, rto_sq) = if to_sq.0 == 2 {
                (Square(0), Square(3))
            } else {
                (Square(7), Square(5))
            };
            pos.toggle_piece(&rfrom_sq, &PieceType(3), &Color(0));
            pos.toggle_piece(&from_sq, &PieceType(5), &Color(0));
            pos.toggle_piece(&rto_sq, &PieceType(3), &Color(0));
            pos.toggle_piece(&to_sq, &PieceType(5), &Color(0));
            proof {
                assert(inv_at(p0, rfrom_sq.0 as u64));
                assert(inv_at(p0, rto_sq.0 as u64));
                lemma_toggle_preserves_inv(p2, rfrom_sq.0, 3, 0);
                let q1 = toggle_spec(p2, rfrom_sq.0, 3, 0);
                lemma_toggle_preserves_inv(q1, from_sq.0, 5, 0);
                let q2 = toggle_spec(q1, from_sq.0, 5, 0);
                lemma_toggle_preserves_inv(q2, rto_sq.0, 3, 0);
                let q3 = toggle_spec(q2, rto_sq.0, 3, 0);
                lemma_toggle_preserves_inv(q3, to_sq.0, 5, 0);
                lemma_inv_same_boards(toggle_spec(q3, to_sq.0, 5, 0), apply_spec(p0, m.0));
            }
        } else if m.is_move_type(MOVE_PROM_CAP) {
            let captured_pt = pos.piece_type_on(&to_sq);
            let prom_type = m.promotion_type();
            pos.toggle_piece(&to_sq, &captured_pt, &Color(1));
            pos.toggle_piece(&from_sq, &PieceType(0), &Color(0));
            pos.toggle_piece(&to_sq, &prom_type, &Color(0));
            proof {
                lemma_toggle_preserves_inv(p2, to_sq.0, captured_pt.0, 1);
                let q1 = toggle_spec(p2, to_sq.0, captured_pt.0, 1);
                lemma_toggle_preserves_inv(q1, from_sq.0, 0, 0);
                let q2 = toggle_spec(q1, from_sq.0, 0, 0);
                lemma_toggle_preserves_inv(q2, to_sq.0, prom_type.0, 0);
                lemma_inv_same_boards(toggle_spec(q2, to_sq.0, prom_type.0, 0), apply_spec(p0, m.0));
            }
        } else if m.is_move_type(MOVE_PROMOTION) {
            let prom_type = m.promotion_type();
            pos.toggle_piece(&from_sq, &PieceType(0), &Color(0));
            pos.toggle_piece(&to_sq, &prom_type, &Color(0));
            proof {
                lemma_toggle_preserves_inv(p2, from_sq.0, 0, 0);
                let q1 = toggle_spec(p2, from_sq.0, 0, 0);
                lemma_toggle_preserves_inv(q1, to_sq.0, prom_type.0, 0);
                lemma_inv_same_boards(toggle_spec(q1, to_sq.0, prom_type.0, 0), apply_spec(p0, m.0));
            }
        }
        if !m.is_move_type(MOVE_DOUBLE_PUSH) {
            pos.enpassant_sq = Square(SQUARE_INVALID_IDX);
        }
        let ghost p4 = pos;
        proof {
            assert(p4 == apply_spec(p0, m.0));
            lemma_flip_preserves_inv(p4);
            lemma_and_upper(p0.castling_rights.0, spoiler(from_sq.0));
            lemma_and_upper(p0.castling_rights.0 & spoiler(from_sq.0), spoiler(to_sq.0));
            lemma_rot_bound(p4.castling_rights.0);
            lemma_scalar_flip_bounds(p4.side_to_move.0);
            lemma_scalar_flip_bounds(p4.enpassant_sq.0);
        }
        pos.flip();
        pos
    }

    /// Checks the occupancy invariant square by square: at most one
    /// piece-type bitboard and at most one color bitboard cover each
    /// square, and the color bitboards cover exactly the occupied
    /// squares.
    pub fn is_consistent(&self) -> (r: bool)
        ensures
            r == inv(*self),
    {
        let mut i: u64 = 0;
        let mut ok = true;
        while i < 64
            invariant
                i <= 64,
                ok == (forall|j: u64| j < i ==> #[trigger] inv_at(*self, j)),
            decreases 64 - i,
        {
            let bb: u64 = 1u64 << i;
            let mut cnt: u32 = 0;
            if self.pawns.0 & bb != 0 {
                cnt = cnt + 1;
            }
            if self.knights.0 & bb != 0 {
                cnt = cnt + 1;
            }
            if self.bishops.0 & bb != 0 {
                cnt = cnt + 1;
            }
            if self.rooks.0 & bb != 0 {
                cnt = cnt + 1;
            }
            if self.queens.0 & bb != 0 {
                cnt = cnt + 1;
            }
            if self.kings.0 & bb != 0 {
                cnt = cnt + 1;
            }
            let w = self.white.0 & bb != 0;
            let b = self.black.0 & bb != 0;
            let here = cnt <= 1 && !(w && b) && ((w || b) == (cnt >= 1));
            proof {
                assert(here == inv_at(*self, i));
            }
            ok = ok && here;
            i = i + 1;
        }
        ok
    }
}

/// XOR-ing a two-square mask equals toggling the squares one by one.
proof fn lemma_xor_twice(x: u64, a: u64, b: u64)
    by (bit_vector)
    ensures
        x ^ (a ^ b) == (x ^ a) ^ b,
{
}

/// Mirroring the board twice restores every bitboard, and the scalar
/// transformations are involutions as well, so a double flip is the
/// identity on every well-formed position.
pub proof fn lemma_flip_involutive(p: Position)
    requires
        wf_scalars(p),
    ensures
        flip_spec(flip_spec(p)) == p,
{
    crate::bits::lemma_bswap_involutive(p.pawns.0);
    crate::bits::lemma_bswap_involutive(p.knights.0);
    crate::bits::lemma_bswap_involutive(p.bishops.0);
    crate::bits::lemma_bswap_involutive(p.rooks.0);
    crate::bits::lemma_bswap_involutive(p.queens.0);
    crate::bits::lemma_bswap_involutive(p.kings.0);
    crate::bits::lemma_bswap_involutive(p.white.0);
    crate::bits::lemma_bswap_involutive(p.black.0);
    let ep = p.enpassant_sq.0;
    assert(ep < 64 ==> ((ep ^ 56) ^ 56) == ep && (ep ^ 56) != 64) by (bit_vector);
    let cr = p.castling_rights.0;
    let cr1 = ((cr >> 2) ^ ((cr & 3) << 2)) as u8;
    assert(cr < 16 ==> ((cr1 >> 2) ^ ((cr1 & 3) << 2)) == cr) by (bit_vector)
        requires
            cr1 == ((cr >> 2) ^ ((cr & 3) << 2)) as u8,
    ;
    let s = p.side_to_move.0;
    assert((s ^ 1) ^ 1 == s) by (bit_vector);
}

/// Mirroring the board moves every square's occupancy to the mirrored
/// square, so it preserves occupancy consistency.
pub proof fn lemma_flip_preserves_inv(p: Position)
    requires
        inv(p),
    ensures
        inv(flip_spec(p)),
{
    let q = flip_spec(p);
    assert forall|i: u64| i < 64 implies #[trigger] inv_at(q, i) by {
        broadcast use group_bits;

        assert(inv_at(p, i ^ 56));
    }
}

/// Two positions with the same eight bitboards are equally consistent:
/// the occupancy invariant never reads the scalar fields.
pub proof fn lemma_inv_same_boards(a: Position, b: Position)
    requires
        inv(a),
        b.pawns == a.pawns,
        b.knights == a.knights,
        b.bishops == a.bishops,
        b.rooks == a.rooks,
        b.queens == a.queens,
        b.kings == a.kings,
        b.white == a.white,
        b.black == a.black,
    ensures
        inv(b),
{
    assert forall|i: u64| i < 64 implies #[trigger] inv_at(b, i) by {
        assert(inv_at(a, i));
    }
}

/// Toggling one square in one piece plane and one color plane keeps
/// occupancy consistent, provided the toggle either removes the piece
/// that is there (both bits set) or fills an empty square. The
/// remaining clauses characterize every bit of the result.
pub proof fn lemma_toggle_preserves_inv(p: Position, sq: u8, pt: u8, c: u8)
    requires
        inv(p),
        sq < 64,
        pt < 6,
        c < 2,
        (bit64(plane(p, pt as int), sq as u64) && bit64(colr(p, c as int), sq as u64)) || !covered(
            p,
            sq as u64,
        ),
    ensures
        inv(toggle_spec(p, sq, pt, c)),
        forall|k: int, i: u64|
            0 <= k < 6 && i < 64 ==> #[trigger] bit64(plane(toggle_spec(p, sq, pt, c), k), i) == (
            bit64(plane(p, k), i) != (k == pt as int && i == sq as u64)),
        forall|c2: int, i: u64|
            0 <= c2 < 2 && i < 64 ==> #[trigger] bit64(colr(toggle_spec(p, sq, pt, c), c2), i) == (
            bit64(colr(p, c2), i) != (c2 == c as int && i == sq as u64)),
{
    let q = toggle_spec(p, sq, pt, c);
    let m = 1u64 << (sq as u64);
    assert forall|k: int, i: u64| 0 <= k < 6 && i < 64 implies #[trigger] bit64(plane(q, k), i) == (
    bit64(plane(p, k), i) != (k == pt as int && i == sq as u64)) by {
        lemma_bit_single(sq as u64, i);
        if k == pt as int {
            assert(plane(q, k) == plane(p, k) ^ m);
            lemma_bit_xor(plane(p, k), m, i);
        } else {
            assert(plane(q, k) == plane(p, k));
        }
    }
    assert forall|c2: int, i: u64| 0 <= c2 < 2 && i < 64 implies #[trigger] bit64(
        colr(q, c2),
        i,
    ) == (bit64(colr(p, c2), i) != (c2 == c as int && i == sq as u64)) by {
        lemma_bit_single(sq as u64, i);
        if c2 == c as int {
            assert(colr(q, c2) == colr(p, c2) ^ m);
            lemma_bit_xor(colr(p, c2), m, i);
        } else {
            assert(colr(q, c2) == colr(p, c2));
        }
    }
    assert forall|i: u64| i < 64 implies #[trigger] inv_at(q, i) by {
        assert(inv_at(p, i));
        assert(inv_at(p, sq as u64));
    }
}

/// The castling rights that survive a piece leaving or arriving on
/// `sq`: moving off a rook's or the king's home square forfeits the
/// associated rights; every other square keeps all four.
pub open spec fn spoiler(sq: u8) -> u8 {
    if sq == 0 {
        13
    } else if sq == 4 {
        12
    } else if sq == 7 {
        14
    } else if sq == 56 {
        7
    } else if sq == 60 {
        3
    } else if sq == 63 {
        11
    } else {
        15
    }
}

/// The per-square surviving-rights lookup used by `make_move`.
pub fn castling_spoiler(sq: u8) -> (r: u8)
    ensures
        r == spoiler(sq),
{
    if sq == 0 {
        13
    } else if sq == 4 {
        12
    } else if sq == 7 {
        14
    } else if sq == 56 {
        7
    } else if sq == 60 {
        3
    } else if sq == 63 {
        11
    } else {
        15
    }
}

/// A mover's piece stands on square `f`.
pub open spec fn mover_on(p: Position, f: u64) -> bool {
    covered(p, f) && bit64(colr(p, 0), f)
}

/// A mover's pawn stands on square `f`.
pub open spec fn pawn_on(p: Position, f: u64) -> bool {
    bit64(plane(p, 0), f) && bit64(colr(p, 0), f)
}

/// Square `t` is empty.
pub open spec fn dest_empty(p: Position, t: u64) -> bool {
    !bit64(colr(p, 0), t) && !bit64(colr(p, 1), t)
}

/// The rook's origin square for a castle whose king lands on `t`.
pub open spec fn rook_from(t: u64) -> u64 {
    if t == 2 {
        0
    } else {
        7
    }
}

/// The rook's destination square for a castle whose king lands on `t`.
pub open spec fn rook_to(t: u64) -> u64 {
    if t == 2 {
        3
    } else {
        5
    }
}

/// Structural consistency of a castle move: the king lands on its
/// file-C or file-G square, king and rook stand where the move needs
/// them, and the squares they land on are free.
pub open spec fn castle_ok(p: Position, f: u64, t: u64) -> bool {
    &&& (t == 2 || t == 6)
    &&& bit64(plane(p, 5), f) && bit64(colr(p, 0), f)
    &&& dest_empty(p, t)
    &&& bit64(plane(p, 3), rook_from(t)) && bit64(colr(p, 0), rook_from(t))
    &&& (dest_empty(p, rook_to(t)) || rook_to(t) == f)
}

/// Structural consistency of a move with the position it is applied
/// to: exactly one kind flag is set, and the pieces that the kind's
/// transition touches stand where it expects them. `make_move` trusts
/// its moves this far and no further (it does not check legality).
pub open spec fn move_ok(p: Position, m: u32) -> bool {
    let f = mv_from(m) as u64;
    let t = mv_to(m) as u64;
    &&& wf_move(m)
    &&& (mv_is(m, MOVE_NORMAL) ==> mover_on(p, f) && dest_empty(p, t))
    &&& (mv_is(m, MOVE_CAPTURE) ==> mover_on(p, f) && bit64(colr(p, 1), t))
    &&& (mv_is(m, MOVE_DOUBLE_PUSH) ==> mover_on(p, f) && dest_empty(p, t) && t >= 8)
    &&& (mv_is(m, MOVE_ENPASSANT) ==> mover_on(p, f) && dest_empty(p, t) && p.enpassant_sq.0 < 64
        && bit64(colr(p, 1), p.enpassant_sq.0 as u64) && bit64(
        plane(p, 0),
        p.enpassant_sq.0 as u64,
    ))
    &&& (mv_is(m, MOVE_CASTLING) ==> castle_ok(p, f, t))
    &&& (mv_is(m, MOVE_PROM_CAP) ==> pawn_on(p, f) && bit64(colr(p, 1), t) && mv_prom(m) < 6)
    &&& (mv_is(m, MOVE_PROMOTION) ==> pawn_on(p, f) && dest_empty(p, t) && mv_prom(m) < 6)
}

/// The position after one ply, before the final perspective flip:
/// castling rights are narrowed by the per-square spoiler table, a
/// pawn move or a capture resets the half-move clock, the move kind's
/// piece toggles are applied, and the en-passant target is set by a
/// double push and cleared by everything else.
pub open spec fn apply_spec(p: Position, m: u32) -> Position {
    let f = mv_from(m);
    let t = mv_to(m);
    let mvpt = piece_at(p, f as u64);
    let p1 = Position {
        castling_rights: CastlingRights(p.castling_rights.0 & spoiler(f) & spoiler(t)),
        ..p
    };
    let p2 = if mvpt == 0 {
        Position { halfmoves: 0, ..p1 }
    } else {
        p1
    };
    let p3 = if mv_is(m, MOVE_NORMAL) {
        move_spec(p2, f, t, mvpt, 0)
    } else if mv_is(m, MOVE_CAPTURE) {
        let q = move_spec(toggle_spec(p2, t, piece_at(p, t as u64), 1), f, t, mvpt, 0);
        Position { halfmoves: 0, ..q }
    } else if mv_is(m, MOVE_DOUBLE_PUSH) {
        let q = move_spec(p2, f, t, mvpt, 0);
        Position {
            enpassant_sq: Square(
                if t >= 8 {
                    (t - 8) as u8
                } else {
                    SQUARE_INVALID_IDX
                },
            ),
            ..q
        }
    } else if mv_is(m, MOVE_ENPASSANT) {
        toggle_spec(move_spec(p2, f, t, mvpt, 0), p.enpassant_sq.0, 0, 1)
    } else if mv_is(m, MOVE_CASTLING) {
        let rf = rook_from(t as u64) as u8;
        let rt = rook_to(t as u64) as u8;
        toggle_spec(toggle_spec(toggle_spec(toggle_spec(p2, rf, 3, 0), f, 5, 0), rt, 3, 0), t, 5, 0)
    } else if mv_is(m, MOVE_PROM_CAP) {
        toggle_spec(
            toggle_spec(toggle_spec(p2, t, piece_at(p, t as u64), 1), f, 0, 0),
            t,
            mv_prom(m),
            0,
        )
    } else if mv_is(m, MOVE_PROMOTION) {
        toggle_spec(toggle_spec(p2, f, 0, 0), t, mv_prom(m), 0)
    } else {
        p2
    };
    if !mv_is(m, MOVE_DOUBLE_PUSH) {
        Position { enpassant_sq: Square(SQUARE_INVALID_IDX), ..p3 }
    } else {
        p3
    }
}

/// A mask narrowed by AND never grows.
proof fn lemma_and_upper(x: u8, y: u8)
    by (bit_vector)
    ensures
        x & y <= x,
{
}

/// Exchanging the two bit pairs of a 4-bit mask keeps it 4-bit.
pub(crate) proof fn lemma_rot_bound(x: u8)
    by (bit_vector)
    ensures
        x < 16 ==> ((x >> 2) ^ ((x & 3) << 2)) < 16,
{
}

/// Inverting the low bit keeps a color index a color index, and
/// mirroring a square index keeps it on the board.
pub(crate) proof fn lemma_scalar_flip_bounds(x: u8)
    by (bit_vector)
    ensures
        x < 2 ==> (x ^ 1) < 2,
        x < 64 ==> (x ^ 56) < 64,
{
}

} // verus!

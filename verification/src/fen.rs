//! The FEN codec. Decoding is a state machine over the six
//! space-separated fields of the notation: `fen_decode` is the
//! specification — a fold of `scan_step` over the input bytes — and
//! `Position::from_fen` returns exactly its value; malformed input is
//! reported as a `FenError` naming the offending byte instead of
//! aborting. Encoding renders the same six fields from the position's
//! real (unflipped) orientation.

use vstd::prelude::*;
use crate::constants::SQUARE_INVALID_IDX;
use crate::position::colr;
use crate::position::flip_spec;
use crate::position::piece_at;
use crate::position::wf_scalars;
use crate::position::Position;
use crate::bits::bit64;
use crate::types::Bitboard;
use crate::types::CastlingRights;
use crate::types::Color;
use crate::types::FenStage;
use crate::types::Square;
use crate::utils::piece_letter;
use crate::utils::piece_letter_exec;
use crate::utils::Printable;

verus! {

/// Why a FEN string was rejected, with the offending byte where one
/// exists.
#[derive(Eq, PartialEq, Copy, Clone, Structural, Debug)]
pub enum FenError {
    /// A byte outside the piece-placement alphabet.
    BadPieceChar(u8),
    /// The square pointer left the board during piece placement.
    BoardOverflow,
    /// The side-to-move field is not a single `w` or `b`.
    BadSideChar(u8),
    /// A byte outside `KQkq-` in the castling field.
    BadCastlingChar(u8),
    /// A malformed en-passant field.
    BadEnpassant(u8),
    /// A non-digit in a clock field.
    BadNumber(u8),
    /// A clock field exceeds its integer type.
    NumberOverflow,
    /// Not exactly six fields.
    FieldCount,
}

/// The decoder's state between bytes: the position built so far, the
/// current field, the square pointer of the piece stage, how many
/// bytes of the current field were seen (saturated at 3 — the stages
/// only distinguish 0, 1, 2 and "several"), and the en-passant
/// helpers.
#[derive(Eq, PartialEq, Copy, Clone, Structural, Debug)]
pub struct ScanState {
    pub pos: Position,
    pub stage: FenStage,
    pub cursor: u8,
    pub seen: u8,
    pub ep_file: u8,
    pub ep_dash: bool,
    pub err: Option<FenError>,
}

/// The piece type of a FEN letter (either case), or 6 for any other
/// byte.
pub open spec fn piece_code(ch: u8) -> u8 {
    if ch == 80 || ch == 112 {  // P p
        0
    } else if ch == 78 || ch == 110 {  // N n
        1
    } else if ch == 66 || ch == 98 {  // B b
        2
    } else if ch == 82 || ch == 114 {  // R r
        3
    } else if ch == 81 || ch == 113 {  // Q q
        4
    } else if ch == 75 || ch == 107 {  // K k
        5
    } else {
        6
    }
}

/// The color of a FEN piece letter: upper case is White.
pub open spec fn color_code(ch: u8) -> u8 {
    if 65 <= ch <= 90 {
        0
    } else {
        1
    }
}

/// The castling-right bit of a FEN letter, 0 for `-`, or 16 for any
/// other byte.
pub open spec fn castle_code(ch: u8) -> u8 {
    if ch == 75 {  // K
        1
    } else if ch == 81 {  // Q
        2
    } else if ch == 107 {  // k
        4
    } else if ch == 113 {  // q
        8
    } else if ch == 45 {  // -
        0
    } else {
        16
    }
}

/// `p` with a piece of type `pt` and color `c` placed on square `sq`
/// (bits set in both bitboards).
pub open spec fn place_spec(p: Position, sq: u8, pt: u8, c: u8) -> Position {
    let m = 1u64 << (sq as u64);
    Position {
        pawns: Bitboard(
            if pt == 0 {
                p.pawns.0 | m
            } else {
                p.pawns.0
            },
        ),
        knights: Bitboard(
            if pt == 1 {
                p.knights.0 | m
            } else {
                p.knights.0
            },
        ),
        bishops: Bitboard(
            if pt == 2 {
                p.bishops.0 | m
            } else {
                p.bishops.0
            },
        ),
        rooks: Bitboard(
            if pt == 3 {
                p.rooks.0 | m
            } else {
                p.rooks.0
            },
        ),
        queens: Bitboard(
            if pt == 4 {
                p.queens.0 | m
            } else {
                p.queens.0
            },
        ),
        kings: Bitboard(
            if pt == 5 {
                p.kings.0 | m
            } else {
                p.kings.0
            },
        ),
        white: Bitboard(
            if c == 0 {
                p.white.0 | m
            } else {
                p.white.0
            },
        ),
        black: Bitboard(
            if c == 1 {
                p.black.0 | m
            } else {
                p.black.0
            },
        ),
        ..p
    }
}

/// The state before any byte: an empty board scanned from a8, no
/// rights, no en-passant target, White to move, zeroed clocks.
pub open spec fn init_scan() -> ScanState {
    ScanState {
        pos: Position {
            pawns: Bitboard(0),
            knights: Bitboard(0),
            bishops: Bitboard(0),
            rooks: Bitboard(0),
            queens: Bitboard(0),
            kings: Bitboard(0),
            white: Bitboard(0),
            black: Bitboard(0),
            enpassant_sq: Square(SQUARE_INVALID_IDX),
            castling_rights: CastlingRights(0),
            side_to_move: Color(0),
            halfmoves: 0,
            fullmoves: 0,
        },
        stage: FenStage::Pieces,
        cursor: 56,
        seen: 0,
        ep_file: 0,
        ep_dash: false,
        err: None,
    }
}

/// A failed state: the error is recorded and every later byte is
/// ignored.
pub open spec fn fail(st: ScanState, e: FenError) -> ScanState {
    ScanState { err: Some(e), ..st }
}

/// The field-length counter, saturated at 3.
pub open spec fn inc_seen(n: u8) -> u8 {
    if n < 3 {
        (n + 1) as u8
    } else {
        n
    }
}

/// One byte of input applied to the decoder state.
pub open spec fn scan_step(st: ScanState, ch: u8) -> ScanState {
    if st.err is Some {
        st
    } else if ch == 32 {
        match st.stage {
            FenStage::Pieces => ScanState { stage: FenStage::SideToMove, seen: 0, ..st },
            FenStage::SideToMove => if st.seen == 1 {
                ScanState { stage: FenStage::CastlingRights, seen: 0, ..st }
            } else {
                fail(st, FenError::BadSideChar(32))
            },
            FenStage::CastlingRights => ScanState { stage: FenStage::EnpassantSquare, seen: 0, ..st },
            FenStage::EnpassantSquare => if (st.ep_dash && st.seen == 1) || st.seen == 2 {
                ScanState { stage: FenStage::HalfMoves, seen: 0, ..st }
            } else {
                fail(st, FenError::BadEnpassant(32))
            },
            FenStage::HalfMoves => if st.seen >= 1 {
                ScanState { stage: FenStage::FullMoves, seen: 0, ..st }
            } else {
                fail(st, FenError::BadNumber(32))
            },
            _ => fail(st, FenError::FieldCount),
        }
    } else {
        match st.stage {
            FenStage::Pieces => if 48 <= ch <= 57 {
                if st.cursor + (ch - 48) > 64 {
                    fail(st, FenError::BoardOverflow)
                } else {
                    ScanState { cursor: (st.cursor + (ch - 48)) as u8, seen: inc_seen(st.seen), ..st }
                }
            } else if ch == 47 {  // the rank separator
                if st.cursor < 16 {
                    fail(st, FenError::BoardOverflow)
                } else {
                    ScanState { cursor: (st.cursor - 16) as u8, seen: inc_seen(st.seen), ..st }
                }
            } else if piece_code(ch) < 6 {
                if st.cursor >= 64 {
                    fail(st, FenError::BoardOverflow)
                } else {
                    ScanState {
                        pos: place_spec(st.pos, st.cursor, piece_code(ch), color_code(ch)),
                        cursor: (st.cursor + 1) as u8,
                        seen: inc_seen(st.seen),
                        ..st
                    }
                }
            } else {
                fail(st, FenError::BadPieceChar(ch))
            },
            FenStage::SideToMove => if st.seen == 0 && ch == 119 {  // w
                ScanState { pos: Position { side_to_move: Color(0), ..st.pos }, seen: 1, ..st }
            } else if st.seen == 0 && ch == 98 {  // b
                ScanState { pos: Position { side_to_move: Color(1), ..st.pos }, seen: 1, ..st }
            } else {
                fail(st, FenError::BadSideChar(ch))
            },
            FenStage::CastlingRights => if castle_code(ch) < 16 {
                ScanState {
                    pos: Position {
                        castling_rights: CastlingRights(st.pos.castling_rights.0 ^ castle_code(ch)),
                        ..st.pos
                    },
                    seen: inc_seen(st.seen),
                    ..st
                }
            } else {
                fail(st, FenError::BadCastlingChar(ch))
            },
            FenStage::EnpassantSquare => if st.seen == 0 && ch == 45 {  // -
                ScanState {
                    pos: Position { enpassant_sq: Square(SQUARE_INVALID_IDX), ..st.pos },
                    ep_dash: true,
                    seen: 1,
                    ..st
                }
            } else if st.seen == 0 && 97 <= ch <= 104 {  // a-h
                ScanState { ep_file: (ch - 97) as u8, seen: 1, ..st }
            } else if st.seen == 1 && !st.ep_dash && 49 <= ch <= 56 {  // 1-8
                ScanState {
                    pos: Position {
                        enpassant_sq: Square((st.ep_file + (ch - 49) * 8) as u8),
                        ..st.pos
                    },
                    seen: 2,
                    ..st
                }
            } else {
                fail(st, FenError::BadEnpassant(ch))
            },
            FenStage::HalfMoves => if 48 <= ch <= 57 {
                if st.pos.halfmoves * 10 + (ch - 48) > 255 {
                    fail(st, FenError::NumberOverflow)
                } else {
                    ScanState {
                        pos: Position {
                            halfmoves: (st.pos.halfmoves * 10 + (ch - 48)) as u8,
                            ..st.pos
                        },
                        seen: inc_seen(st.seen),
                        ..st
                    }
                }
            } else {
                fail(st, FenError::BadNumber(ch))
            },
            FenStage::FullMoves => if 48 <= ch <= 57 {
                if st.pos.fullmoves * 10 + (ch - 48) > 0xFFFF_FFFF {
                    fail(st, FenError::NumberOverflow)
                } else {
                    ScanState {
                        pos: Position {
                            fullmoves: (st.pos.fullmoves * 10 + (ch - 48)) as u32,
                            ..st.pos
                        },
                        seen: inc_seen(st.seen),
                        ..st
                    }
                }
            } else {
                fail(st, FenError::BadNumber(ch))
            },
            _ => fail(st, FenError::FieldCount),
        }
    }
}

/// The decoder state after the first `n` bytes of `s`.
pub open spec fn scan(s: Seq<u8>, n: int) -> ScanState
    decreases n,
{
    if n <= 0 {
        init_scan()
    } else {
        scan_step(scan(s, n - 1), s[n - 1])
    }
}

/// What decoding a whole FEN string yields: the scanned position —
/// flipped when Black is to move, so that the internal perspective is
/// always the mover's — or the first error. Exactly six fields are
/// consumed, the last of them a non-empty full-move number.
pub open spec fn fen_decode(s: Seq<u8>) -> Result<Position, FenError> {
    let st = scan(s, s.len() as int);
    match st.err {
        Some(e) => Err(e),
        None => if st.stage == FenStage::FullMoves && st.seen >= 1 {
            if st.pos.side_to_move.0 == 1 {
                Ok(flip_spec(st.pos))
            } else {
                Ok(st.pos)
            }
        } else {
            Err(FenError::FieldCount)
        },
    }
}

/// Bounds that every reachable decoder state satisfies.
pub open spec fn wf_scan(st: ScanState) -> bool {
    &&& st.cursor <= 64
    &&& st.seen <= 3
    &&& st.ep_file <= 7
    &&& st.pos.enpassant_sq.0 <= 64
    &&& st.pos.castling_rights.0 < 16
    &&& st.pos.side_to_move.0 < 2
}

/// The exclusive-or of two 4-bit masks is a 4-bit mask.
proof fn lemma_xor_mask_bound(a: u8, b: u8)
    by (bit_vector)
    ensures
        a < 16 && b < 16 ==> (a ^ b) < 16,
{
}

/// One byte of input applied to the decoder state; see `scan_step`.
fn step(st: ScanState, ch: u8) -> (r: ScanState)
    requires
        wf_scan(st),
    ensures
        r == scan_step(st, ch),
        wf_scan(r),
{
    let mut r = st;
    if st.err.is_some() {
        return r;
    }
    if ch == 32 {
        match st.stage {
            FenStage::Pieces => {
                r.stage = FenStage::SideToMove;
                r.seen = 0;
            },
            FenStage::SideToMove => {
                if st.seen == 1 {
                    r.stage = FenStage::CastlingRights;
                    r.seen = 0;
                } else {
                    r.err = Some(FenError::BadSideChar(32));
                }
            },
            FenStage::CastlingRights => {
                r.stage = FenStage::EnpassantSquare;
                r.seen = 0;
            },
            FenStage::EnpassantSquare => {
                if (st.ep_dash && st.seen == 1) || st.seen == 2 {
                    r.stage = FenStage::HalfMoves;
                    r.seen = 0;
                } else {
                    r.err = Some(FenError::BadEnpassant(32));
                }
            },
            FenStage::HalfMoves => {
                if st.seen >= 1 {
                    r.stage = FenStage::FullMoves;
                    r.seen = 0;
                } else {
                    r.err = Some(FenError::BadNumber(32));
                }
            },
            _ => {
                r.err = Some(FenError::FieldCount);
            },
        }
        return r;
    }
    match st.stage {
        FenStage::Pieces => {
            if 48 <= ch && ch <= 57 {
                let d = ch - 48;
                if st.cursor + d > 64 {
                    r.err = Some(FenError::BoardOverflow);
                } else {
                    r.cursor = st.cursor + d;
                    r.seen = inc_seen_exec(st.seen);
                }
            } else if ch == 47 {
                if st.cursor < 16 {
                    r.err = Some(FenError::BoardOverflow);
                } else {
                    r.cursor = st.cursor - 16;
                    r.seen = inc_seen_exec(st.seen);
                }
            } else {
                let pt = piece_code_exec(ch);
                if pt < 6 {
                    if st.cursor >= 64 {
                        r.err = Some(FenError::BoardOverflow);
                    } else {
                        let c = color_code_exec(ch);
                        let sh: u64 = st.cursor as u64;
                        let m: u64 = 1u64 << sh;
                        if pt == 0 {
                            r.pos.pawns.0 = r.pos.pawns.0 | m;
                        } else if pt == 1 {
                            r.pos.knights.0 = r.pos.knights.0 | m;
                        } else if pt == 2 {
                            r.pos.bishops.0 = r.pos.bishops.0 | m;
                        } else if pt == 3 {
                            r.pos.rooks.0 = r.pos.rooks.0 | m;
                        } else if pt == 4 {
                            r.pos.queens.0 = r.pos.queens.0 | m;
                        } else {
                            r.pos.kings.0 = r.pos.kings.0 | m;
                        }
                        if c == 0 {
                            r.pos.white.0 = r.pos.white.0 | m;
                        } else {
                            r.pos.black.0 = r.pos.black.0 | m;
                        }
                        r.cursor = st.cursor + 1;
                        r.seen = inc_seen_exec(st.seen);
                    }
                } else {
                    r.err = Some(FenError::BadPieceChar(ch));
                }
            }
        },
        FenStage::SideToMove => {
            if st.seen == 0 && ch == 119 {
                r.pos.side_to_move = Color(0);
                r.seen = 1;
            } else if st.seen == 0 && ch == 98 {
                r.pos.side_to_move = Color(1);
                r.seen = 1;
            } else {
                r.err = Some(FenError::BadSideChar(ch));
            }
        },
        FenStage::CastlingRights => {
            let mask = castle_code_exec(ch);
            if mask < 16 {
                proof {
                    lemma_xor_mask_bound(st.pos.castling_rights.0, mask);
                }
                r.pos.castling_rights.0 = st.pos.castling_rights.0 ^ mask;
                r.seen = inc_seen_exec(st.seen);
            } else {
                r.err = Some(FenError::BadCastlingChar(ch));
            }
        },
        FenStage::EnpassantSquare => {
            if st.seen == 0 && ch == 45 {
                r.pos.enpassant_sq = Square(SQUARE_INVALID_IDX);
                r.ep_dash = true;
                r.seen = 1;
            } else if st.seen == 0 && 97 <= ch && ch <= 104 {
                r.ep_file = ch - 97;
                r.seen = 1;
            } else if st.seen == 1 && !st.ep_dash && 49 <= ch && ch <= 56 {
                r.pos.enpassant_sq = Square(st.ep_file + (ch - 49) * 8);
                r.seen = 2;
            } else {
                r.err = Some(FenError::BadEnpassant(ch));
            }
        },
        FenStage::HalfMoves => {
            if 48 <= ch && ch <= 57 {
                let v: u32 = (st.pos.halfmoves as u32) * 10 + ((ch - 48) as u32);
                if v > 255 {
                    r.err = Some(FenError::NumberOverflow);
                } else {
                    r.pos.halfmoves = v as u8;
                    r.seen = inc_seen_exec(st.seen);
                }
            } else {
                r.err = Some(FenError::BadNumber(ch));
            }
        },
        FenStage::FullMoves => {
            if 48 <= ch && ch <= 57 {
                let v: u64 = (st.pos.fullmoves as u64) * 10 + ((ch - 48) as u64);
                if v > 0xFFFF_FFFF {
                    r.err = Some(FenError::NumberOverflow);
                } else {
                    r.pos.fullmoves = v as u32;
                    r.seen = inc_seen_exec(st.seen);
                }
            } else {
                r.err = Some(FenError::BadNumber(ch));
            }
        },
        _ => {
            r.err = Some(FenError::FieldCount);
        },
    }
    r
}

/// The field-length counter, saturated at 3; see `inc_seen`.
fn inc_seen_exec(n: u8) -> (r: u8)
    requires
        n <= 3,
    ensures
        r == inc_seen(n),
        r <= 3,
{
    if n < 3 {
        n + 1
    } else {
        n
    }
}

/// The piece type of a FEN letter; see `piece_code`.
fn piece_code_exec(ch: u8) -> (r: u8)
    ensures
        r == piece_code(ch),
{
    if ch == 80 || ch == 112 {
        0
    } else if ch == 78 || ch == 110 {
        1
    } else if ch == 66 || ch == 98 {
        2
    } else if ch == 82 || ch == 114 {
        3
    } else if ch == 81 || ch == 113 {
        4
    } else if ch == 75 || ch == 107 {
        5
    } else {
        6
    }
}

/// The color of a FEN piece letter; see `color_code`.
fn color_code_exec(ch: u8) -> (r: u8)
    ensures
        r == color_code(ch),
{
    if 65 <= ch && ch <= 90 {
        0
    } else {
        1
    }
}

/// The castling-right bit of a FEN letter; see `castle_code`.
fn castle_code_exec(ch: u8) -> (r: u8)
    ensures
        r == castle_code(ch),
{
    if ch == 75 {
        1
    } else if ch == 81 {
        2
    } else if ch == 107 {
        4
    } else if ch == 113 {
        8
    } else if ch == 45 {
        0
    } else {
        16
    }
}

impl Position {
    /// Decodes a FEN string (as ASCII bytes) into a position, or
    /// reports the first malformed byte. The result equals
    /// `fen_decode` on the input, field for field.
    pub fn from_fen(fen: &[u8]) -> (r: Result<Position, FenError>)
        ensures
            r == fen_decode(fen@),
            r is Ok ==> wf_scalars(r->Ok_0),
    {
        let n = fen.len();
        let mut st = ScanState {
            pos: Position {
                pawns: Bitboard(0),
                knights: Bitboard(0),
                bishops: Bitboard(0),
                rooks: Bitboard(0),
                queens: Bitboard(0),
                kings: Bitboard(0),
                white: Bitboard(0),
                black: Bitboard(0),
                enpassant_sq: Square(SQUARE_INVALID_IDX),
                castling_rights: CastlingRights(0),
                side_to_move: Color(0),
                halfmoves: 0,
                fullmoves: 0,
            },
            stage: FenStage::Pieces,
            cursor: 56,
            seen: 0,
            ep_file: 0,
            ep_dash: false,
            err: None,
        };
        let mut i: usize = 0;
        while i < n
            invariant
                i <= n,
                n == fen@.len(),
                st == scan(fen@, i as int),
                wf_scan(st),
            decreases n - i,
        {
            st = step(st, fen[i]);
            i = i + 1;
        }
        match st.err {
            Some(e) => Err(e),
            None => {
                if st.stage == FenStage::FullMoves && st.seen >= 1 {
                    let mut p = st.pos;
                    if p.side_to_move.0 == 1 {
                        proof {
                            crate::position::lemma_rot_bound(p.castling_rights.0);
                            crate::position::lemma_scalar_flip_bounds(p.side_to_move.0);
                            crate::position::lemma_scalar_flip_bounds(p.enpassant_sq.0);
                        }
                        p.flip();
                    }
                    Ok(p)
                } else {
                    Err(FenError::FieldCount)
                }
            },
        }
    }
}

/// The FEN letter of the piece on square `sq` of `q`, upper case for
/// a White piece. Meaningful only on occupied squares.
pub open spec fn board_letter(q: Position, sq: u64) -> u8 {
    if bit64(colr(q, 0), sq) {
        (piece_letter(piece_at(q, sq)) - 32) as u8
    } else {
        piece_letter(piece_at(q, sq))
    }
}

/// The digit of a pending empty-square run, or nothing for a run of
/// zero.
pub open spec fn run_digit(run: int) -> Seq<u8> {
    if run > 0 {
        Seq::empty().push((48 + run) as u8)
    } else {
        Seq::empty()
    }
}

/// The remaining text of rank `r`'s placement field from file `f` on,
/// with `run` empty squares already pending: empty squares extend the
/// run, a piece flushes the run digit and appends its letter, and the
/// end of the rank flushes the run.
pub open spec fn enc_rank(q: Position, r: int, f: int, run: int) -> Seq<u8>
    decreases 8 - f,
{
    if f < 0 || f >= 8 {
        run_digit(run)
    } else {
        let sq = (r * 8 + f) as u64;
        if piece_at(q, sq) == 6 {
            enc_rank(q, r, f + 1, run + 1)
        } else {
            run_digit(run).push(board_letter(q, sq)) + enc_rank(q, r, f + 1, 0)
        }
    }
}

/// The placement text of the topmost `k` ranks (rank 8 downward),
/// separated by `/`.
pub open spec fn enc_board_upto(q: Position, k: int) -> Seq<u8>
    decreases k,
{
    if k <= 0 {
        Seq::empty()
    } else {
        let prev = enc_board_upto(q, k - 1);
        let row = enc_rank(q, 8 - k, 0, 0);
        if k > 1 {
            prev.push(47) + row
        } else {
            prev + row
        }
    }
}

/// The castling field: the present rights in `K Q k q` order, or `-`.
pub open spec fn enc_castling(cr: u8) -> Seq<u8> {
    if cr & 15 == 0 {
        Seq::empty().push(45)
    } else {
        let s0 = Seq::<u8>::empty();
        let s1 = if cr & 1 != 0 {
            s0.push(75)
        } else {
            s0
        };
        let s2 = if cr & 2 != 0 {
            s1.push(81)
        } else {
            s1
        };
        let s3 = if cr & 4 != 0 {
            s2.push(107)
        } else {
            s2
        };
        if cr & 8 != 0 {
            s3.push(113)
        } else {
            s3
        }
    }
}

/// The decimal digits of `n`, most significant first.
pub open spec fn dec_digits(n: int) -> Seq<u8>
    decreases n,
{
    if n < 10 {
        Seq::empty().push((48 + if n >= 0 {
            n
        } else {
            0
        }) as u8)
    } else {
        dec_digits(n / 10).push((48 + n % 10) as u8)
    }
}

/// The FEN text of a position: the placement of the real (unflipped)
/// orientation, the side to move, the castling, en-passant and clock
/// fields, separated by single spaces.
pub open spec fn fen_encode(p: Position) -> Seq<u8> {
    let q = if p.side_to_move.0 == 1 {
        flip_spec(p)
    } else {
        p
    };
    let side = if p.side_to_move.0 == 1 {
        98u8
    } else {
        119u8
    };
    ((((enc_board_upto(q, 8).push(32).push(side).push(32) + enc_castling(q.castling_rights.0)).push(
        32,
    ) + q.enpassant_sq.dump_spec()).push(32) + dec_digits(q.halfmoves as int)).push(32)
        + dec_digits(q.fullmoves as int))
}

/// Appends the decimal digits of `n`.
fn push_dec(v: &mut Vec<u8>, n: u32)
    ensures
        final(v)@ == old(v)@ + dec_digits(n as int),
    decreases n,
{
    if n < 10 {
        v.push(48 + (n as u8));
        assert(final(v)@ =~= old(v)@ + dec_digits(n as int));
    } else {
        push_dec(v, n / 10);
        v.push(48 + ((n % 10) as u8));
        assert(final(v)@ =~= old(v)@ + dec_digits(n as int));
    }
}

/// Appends the placement text of rank `r`.
fn push_rank(v: &mut Vec<u8>, q: &Position, r: u8)
    requires
        r < 8,
    ensures
        final(v)@ == old(v)@ + enc_rank(*q, r as int, 0, 0),
{
    let mut f: u8 = 0;
    let mut run: u8 = 0;
    while f < 8
        invariant
            f <= 8,
            run <= f,
            r < 8,
            old(v)@ + enc_rank(*q, r as int, 0, 0) == v@ + enc_rank(*q, r as int, f as int, run as int),
        decreases 8 - f,
    {
        let sq = Square(r * 8 + f);
        let pt = q.piece_type_on(&sq);
        if pt.0 == 6 {
            run = run + 1;
        } else {
            let ghost pre = v@;
            if run > 0 {
                v.push(48 + run);
            }
            let letter = piece_letter_exec(pt.0);
            if q.white.0 & (1u64 << (sq.0 as u64)) != 0 {
                v.push(letter - 32);
            } else {
                v.push(letter);
            }
            proof {
                assert(v@ =~= pre + run_digit(run as int).push(
                    board_letter(*q, sq.0 as u64),
                ));
                assert(pre + (run_digit(run as int).push(board_letter(*q, sq.0 as u64)) + enc_rank(
                    *q,
                    r as int,
                    f as int + 1,
                    0,
                )) =~= (pre + run_digit(run as int).push(board_letter(*q, sq.0 as u64))) + enc_rank(
                    *q,
                    r as int,
                    f as int + 1,
                    0,
                ));
            }
            run = 0;
        }
        f = f + 1;
    }
    if run > 0 {
        v.push(48 + run);
    }
    proof {
        assert(final(v)@ =~= old(v)@ + enc_rank(*q, r as int, 0, 0));
    }
}

impl Position {
    /// Encodes the position as its FEN text (ASCII bytes); the result
    /// equals `fen_encode`, field for field.
    pub fn to_fen(&self) -> (r: Vec<u8>)
        ensures
            r@ == fen_encode(*self),
    {
        let q = if self.side_to_move.0 == 1 {
            self.flipped()
        } else {
            *self
        };
        let mut v: Vec<u8> = Vec::new();
        let mut k: u8 = 0;
        while k < 8
            invariant
                k <= 8,
                q == (if self.side_to_move.0 == 1 {
                    flip_spec(*self)
                } else {
                    *self
                }),
                v@ == enc_board_upto(q, k as int),
            decreases 8 - k,
        {
            let ghost pre = v@;
            if k > 0 {
                v.push(47);
            }
            push_rank(&mut v, &q, 7 - k);
            proof {
                if k > 0 {
                    assert(v@ =~= pre.push(47) + enc_rank(q, 7 - k as int, 0, 0));
                }
            }
            k = k + 1;
        }
        v.push(32);
        if self.side_to_move.0 == 1 {
            v.push(98);
        } else {
            v.push(119);
        }
        v.push(32);
        let ghost before_castling = v@;
        let cr = q.castling_rights.0;
        if cr & 15 == 0 {
            v.push(45);
        } else {
            if cr & 1 != 0 {
                v.push(75);
            }
            if cr & 2 != 0 {
                v.push(81);
            }
            if cr & 4 != 0 {
                v.push(107);
            }
            if cr & 8 != 0 {
                v.push(113);
            }
        }
        proof {
            assert(v@ =~= before_castling + enc_castling(cr));
        }
        v.push(32);
        let mut ep = q.enpassant_sq.print();
        let ghost before_ep = v@;
        v.append(&mut ep);
        proof {
            assert(v@ =~= before_ep + q.enpassant_sq.dump_spec());
        }
        v.push(32);
        push_dec(&mut v, q.halfmoves as u32);
        v.push(32);
        push_dec(&mut v, q.fullmoves);
        proof {
            assert(v@ =~= fen_encode(*self));
        }
        v
    }
}

} // verus!

//! Diagnostic text projections. Each printable value states exactly
//! which ASCII bytes its dump consists of; writing them out is left
//! to the caller.

use vstd::prelude::*;
use crate::bits::bit64;
use crate::types::Bitboard;
use crate::types::CastlingRights;
use crate::types::Color;
use crate::types::ColoredPiece;
use crate::types::PieceType;
use crate::types::Square;

verus! {

/// A value with a diagnostic text dump.
pub trait Printable {
    /// The exact bytes of the dump.
    spec fn dump_spec(&self) -> Seq<u8>;

    /// Renders the dump as ASCII bytes.
    fn print(&self) -> (r: Vec<u8>)
        ensures
            r@ == self.dump_spec(),
    ;
}

/// The FEN letter of a piece type, lower case; `?` for the sentinels.
pub open spec fn piece_letter(pt: u8) -> u8 {
    if pt == 0 {
        112  // p
    } else if pt == 1 {
        110  // n
    } else if pt == 2 {
        98  // b
    } else if pt == 3 {
        114  // r
    } else if pt == 4 {
        113  // q
    } else if pt == 5 {
        107  // k
    } else {
        63  // ?
    }
}

/// The FEN letter of a piece type, as executable code.
pub fn piece_letter_exec(pt: u8) -> (r: u8)
    ensures
        r == piece_letter(pt),
{
    if pt == 0 {
        112
    } else if pt == 1 {
        110
    } else if pt == 2 {
        98
    } else if pt == 3 {
        114
    } else if pt == 4 {
        113
    } else if pt == 5 {
        107
    } else {
        63
    }
}

impl Printable for Color {
    /// `w` for White, `b` for anything else.
    open spec fn dump_spec(&self) -> Seq<u8> {
        if self.0 == 0 {
            Seq::empty().push(119)
        } else {
            Seq::empty().push(98)
        }
    }

    fn print(&self) -> (r: Vec<u8>)
        ensures
            r@ == self.dump_spec(),
    {
        let mut v: Vec<u8> = Vec::new();
        if self.0 == 0 {
            v.push(119);
        } else {
            v.push(98);
        }
        v
    }
}

impl Printable for PieceType {
    /// The lower-case FEN letter, or `?` for the sentinels.
    open spec fn dump_spec(&self) -> Seq<u8> {
        Seq::empty().push(piece_letter(self.0))
    }

    fn print(&self) -> (r: Vec<u8>)
        ensures
            r@ == self.dump_spec(),
    {
        let mut v: Vec<u8> = Vec::new();
        v.push(piece_letter_exec(self.0));
        v
    }
}

impl Printable for ColoredPiece {
    /// The FEN letter, upper case for a White piece.
    open spec fn dump_spec(&self) -> Seq<u8> {
        if self.1.0 == 0 && self.0.0 < 6 {
            Seq::empty().push((piece_letter(self.0.0) - 32) as u8)
        } else {
            Seq::empty().push(piece_letter(self.0.0))
        }
    }

    fn print(&self) -> (r: Vec<u8>)
        ensures
            r@ == self.dump_spec(),
    {
        let mut v: Vec<u8> = Vec::new();
        let letter = piece_letter_exec(self.0.0);
        if self.1.0 == 0 && self.0.0 < 6 {
            v.push(letter - 32);
        } else {
            v.push(letter);
        }
        v
    }
}

impl Printable for Square {
    /// The algebraic coordinate (`a1` .. `h8`), or `-` for the
    /// invalid sentinel or any out-of-range value.
    open spec fn dump_spec(&self) -> Seq<u8> {
        if self.0 < 64 {
            Seq::empty().push((97 + self.0 % 8) as u8).push((49 + self.0 / 8) as u8)
        } else {
            Seq::empty().push(45)
        }
    }

    fn print(&self) -> (r: Vec<u8>)
        ensures
            r@ == self.dump_spec(),
    {
        let mut v: Vec<u8> = Vec::new();
        if self.0 < 64 {
            v.push(97 + self.0 % 8);
            v.push(49 + self.0 / 8);
        } else {
            v.push(45);
        }
        v
    }
}

impl Printable for CastlingRights {
    /// The letters of the present rights in `k q K Q` order, or `-`
    /// when none is present.
    open spec fn dump_spec(&self) -> Seq<u8> {
        if self.0 & 15 == 0 {
            Seq::empty().push(45)
        } else {
            let s0 = Seq::<u8>::empty();
            let s1 = if self.0 & 4 != 0 {
                s0.push(107)
            } else {
                s0
            };
            let s2 = if self.0 & 8 != 0 {
                s1.push(113)
            } else {
                s1
            };
            let s3 = if self.0 & 1 != 0 {
                s2.push(75)
            } else {
                s2
            };
            if self.0 & 2 != 0 {
                s3.push(81)
            } else {
                s3
            }
        }
    }

    fn print(&self) -> (r: Vec<u8>)
        ensures
            r@ == self.dump_spec(),
    {
        let mut v: Vec<u8> = Vec::new();
        if self.0 & 15 == 0 {
            v.push(45);
        } else {
            if self.0 & 4 != 0 {
                v.push(107);
            }
            if self.0 & 8 != 0 {
                v.push(113);
            }
            if self.0 & 1 != 0 {
                v.push(75);
            }
            if self.0 & 2 != 0 {
                v.push(81);
            }
        }
        v
    }
}

/// The first `n` cells of the board grid of `x`: cells run from the
/// top-left corner (a8) row by row down to h1, cell `s` showing `X`
/// or `-` for the bit of square `s ^ 56`, each cell followed by a
/// space and each row but the first preceded by a newline.
pub open spec fn grid_prefix(x: u64, n: u64) -> Seq<u8>
    decreases n,
{
    if n == 0 {
        Seq::empty()
    } else {
        let s = (n - 1) as u64;
        let cell = grid_prefix(x, s).push(
            if bit64(x, s ^ 56) {
                88u8
            } else {
                45u8
            },
        ).push(32u8);
        if s != 0 && s % 8 == 0 {
            grid_prefix(x, s).push(10u8).push(
                if bit64(x, s ^ 56) {
                    88u8
                } else {
                    45u8
                },
            ).push(32u8)
        } else {
            cell
        }
    }
}

impl Printable for Bitboard {
    /// The 8-by-8 `X`/`-` grid, rank 8 at the top.
    open spec fn dump_spec(&self) -> Seq<u8> {
        grid_prefix(self.0, 64)
    }

    fn print(&self) -> (r: Vec<u8>)
        ensures
            r@ == self.dump_spec(),
    {
        let mut v: Vec<u8> = Vec::new();
        let mut s: u64 = 0;
        while s < 64
            invariant
                s <= 64,
                v@ == grid_prefix(self.0, s),
            decreases 64 - s,
        {
            if s != 0 && s % 8 == 0 {
                v.push(10);
            }
            let sh: u64 = s ^ 56;
            proof {
                crate::bits::lemma_mirror_square(s);
            }
            if self.0 & (1u64 << sh) != 0 {
                v.push(88);
            } else {
                v.push(45);
            }
            v.push(32);
            s = s + 1;
        }
        v
    }
}

} // verus!

//! Free helpers for single-bit bitboard surgery.

use vstd::prelude::*;
use crate::bits::bit64;
use crate::types::Bitboard;

verus! {

/// The bitboard with exactly the bit of square `bit` set.
pub fn create_bb(bit: i8) -> (r: Bitboard)
    requires
        0 <= bit < 64,
    ensures
        r.0 == 1u64 << (bit as u64),
{
    let sh: u64 = bit as u64;
    Bitboard(1u64 << sh)
}

/// Sets the bit of square `bit`.
pub fn set_bit(bb: &mut Bitboard, bit: i8)
    requires
        0 <= bit < 64,
    ensures
        final(bb).0 == old(bb).0 | (1u64 << (bit as u64)),
        forall|i: u64|
            i < 64 ==> #[trigger] bit64(final(bb).0, i) == (bit64(old(bb).0, i) || i == bit as u64),
{
    let sh: u64 = bit as u64;
    bb.0 = bb.0 | (1u64 << sh);
    proof {
        broadcast use crate::bits::group_bits;

    }
}

/// Clears the bit of square `bit`.
pub fn clear_bit(bb: &mut Bitboard, bit: i8)
    requires
        0 <= bit < 64,
    ensures
        final(bb).0 == old(bb).0 & !(1u64 << (bit as u64)),
        forall|i: u64|
            i < 64 ==> #[trigger] bit64(final(bb).0, i) == (bit64(old(bb).0, i) && i != bit as u64),
{
    let sh: u64 = bit as u64;
    bb.0 = bb.0 & !(1u64 << sh);
    proof {
        lemma_clear_bits(old(bb).0, sh);
    }
}

/// Clearing one bit by mask clears that bit and keeps every other.
proof fn lemma_clear_bits(x: u64, f: u64)
    by (bit_vector)
    requires
        f < 64,
    ensures
        forall|i: u64|
            i < 64 ==> #[trigger] bit64(x & !(1u64 << f), i) == (bit64(x, i) && i != f),
{
}

} // verus!

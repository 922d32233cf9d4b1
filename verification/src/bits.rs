//! Bit-level view of 64-bit words: a per-square bit test, the byte
//! swap used for board mirroring, and the ambient lemmas that let the
//! rest of the crate reason about bitwise updates square by square.

use vstd::prelude::*;

verus! {

/// Bit `i` of `x` (bit 0 is the least significant).
pub open spec fn bit64(x: u64, i: u64) -> bool {
    x & (1u64 << i) != 0
}

/// `x` with its eight bytes in reverse order. On a bitboard this
/// mirrors the board through its horizontal axis: bit `i` moves to
/// bit `i ^ 56` (rank reversed, file kept).
pub open spec fn bswap64(x: u64) -> u64 {
    ((x & 0xff) << 56) | ((x & 0xff00) << 40) | ((x & 0xff_0000) << 24) | ((x & 0xff00_0000) << 8)
        | ((x >> 8) & 0xff00_0000) | ((x >> 24) & 0xff_0000) | ((x >> 40) & 0xff00) | (x >> 56)
}

pub broadcast proof fn lemma_bit_or(x: u64, y: u64, i: u64)
    by (bit_vector)
    requires
        i < 64,
    ensures
        #[trigger] bit64(x | y, i) == (bit64(x, i) || bit64(y, i)),
{
}

pub broadcast proof fn lemma_bit_and(x: u64, y: u64, i: u64)
    by (bit_vector)
    requires
        i < 64,
    ensures
        #[trigger] bit64(x & y, i) == (bit64(x, i) && bit64(y, i)),
{
}

pub broadcast proof fn lemma_bit_xor(x: u64, y: u64, i: u64)
    by (bit_vector)
    requires
        i < 64,
    ensures
        #[trigger] bit64(x ^ y, i) == (bit64(x, i) != bit64(y, i)),
{
}

pub broadcast proof fn lemma_bit_single(f: u64, i: u64)
    by (bit_vector)
    requires
        i < 64,
        f < 64,
    ensures
        #[trigger] bit64(1u64 << f, i) == (i == f),
{
}

pub broadcast proof fn lemma_bit_zero(i: u64)
    by (bit_vector)
    requires
        i < 64,
    ensures
        #[trigger] bit64(0u64, i) == false,
{
}

/// The common `(x >> i) & 1` form of a bit test agrees with `bit64`.
pub broadcast proof fn lemma_bit_shift_form(x: u64, i: u64)
    by (bit_vector)
    requires
        i < 64,
    ensures
        #[trigger] ((x >> i) & 1u64) == (if bit64(x, i) { 1u64 } else { 0u64 }),
{
}

pub broadcast proof fn lemma_bswap_bit(x: u64, i: u64)
    by (bit_vector)
    requires
        i < 64,
    ensures
        #[trigger] bit64(bswap64(x), i) == bit64(x, i ^ 56),
{
}

pub proof fn lemma_bswap_involutive(x: u64)
    by (bit_vector)
    ensures
        bswap64(bswap64(x)) == x,
{
}

/// Mirroring a square index is an involution that stays on the board.
pub broadcast proof fn lemma_mirror_square(i: u64)
    by (bit_vector)
    requires
        i < 64,
    ensures
        #[trigger] (i ^ 56) < 64,
        (i ^ 56) ^ 56 == i,
{
}

pub broadcast group group_bits {
    lemma_bit_or,
    lemma_bit_and,
    lemma_bit_xor,
    lemma_bit_single,
    lemma_bit_zero,
    lemma_bit_shift_form,
    lemma_bswap_bit,
    lemma_mirror_square,
}

} // verus!

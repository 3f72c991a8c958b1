//! Little-endian 16-bit word arithmetic over bytes, and the wrapping additions
//! used by the addressing modes.

use vstd::prelude::*;

verus! {

/// The low byte of a 16-bit value.
pub open spec fn spec_lo(x: u16) -> u8 {
    (x % 256) as u8
}

/// The high byte of a 16-bit value.
pub open spec fn spec_hi(x: u16) -> u8 {
    (x / 256) as u8
}

/// The 16-bit value assembled little-endian from a low and a high byte.
pub open spec fn spec_word(lo: u8, hi: u8) -> u16 {
    (lo + 256 * hi) as u16
}

/// 8-bit addition with wraparound.
pub open spec fn wrap_add8(a: u8, b: u8) -> u8 {
    ((a + b) % 256) as u8
}

/// 16-bit addition with wraparound.
pub open spec fn wrap_add16(a: u16, b: u16) -> u16 {
    ((a + b) % 0x10000) as u16
}

/// The little-endian word stored at position `pos` of a byte sequence.
pub open spec fn word_at(m: Seq<u8>, pos: int) -> u16
    recommends
        0 <= pos,
        pos + 2 <= m.len(),
{
    spec_word(m[pos], m[pos + 1])
}

/// A byte sequence with the 16-bit value `x` stored little-endian at `pos`.
pub open spec fn put_word(m: Seq<u8>, pos: int, x: u16) -> Seq<u8>
    recommends
        0 <= pos,
        pos + 2 <= m.len(),
{
    m.update(pos, spec_lo(x)).update(pos + 1, spec_hi(x))
}

/// Splitting a word into its bytes and reassembling them is the identity.
pub proof fn lemma_word_split(x: u16)
    ensures
        spec_word(spec_lo(x), spec_hi(x)) == x,
{
}

/// Storing a 16-bit word and reading it back at the same position yields the
/// word, for every word and every position where both bytes fit.
pub proof fn lemma_word_round_trip(m: Seq<u8>, pos: int, x: u16)
    requires
        0 <= pos,
        pos + 2 <= m.len(),
    ensures
        word_at(put_word(m, pos, x), pos) == x,
{
    lemma_word_split(x);
}

/// The executable wrapping addition on `u8` agrees with `wrap_add8`.
pub proof fn lemma_exec_wrap_add8(a: u8, b: u8)
    ensures
        a.wrapping_add(b) == wrap_add8(a, b),
{
}

/// The executable wrapping addition on `u16` agrees with `wrap_add16`.
pub proof fn lemma_exec_wrap_add16(a: u16, b: u16)
    ensures
        a.wrapping_add(b) == wrap_add16(a, b),
{
}

} // verus!

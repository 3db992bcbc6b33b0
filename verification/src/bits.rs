//! The mathematical model of the mirror operations: what it means to write
//! the bits of a byte in reverse order, how that lifts to wider values and
//! to byte sequences, and the laws those operations obey.

use vstd::prelude::*;

verus! {

/// A byte with its eight bits written in reverse order: bit `i` of the
/// result is bit `7 - i` of the input.
pub open spec fn spec_mirror_byte(b: u8) -> u8 {
    (((b >> 0) & 1) << 7) | (((b >> 1) & 1) << 6) | (((b >> 2) & 1) << 5)
        | (((b >> 3) & 1) << 4) | (((b >> 4) & 1) << 3) | (((b >> 5) & 1) << 2)
        | (((b >> 6) & 1) << 1) | ((b >> 7) & 1)
}

/// Mirroring a byte sends each bit to the opposite position: bit `i` of the
/// result equals bit `7 - i` of the input.
pub proof fn lemma_mirror_byte_reverses_bits(b: u8, i: u8)
    requires
        i < 8,
    ensures
        (spec_mirror_byte(b) >> i) & 1 == (b >> ((7 - i) as u8)) & 1,
{
    assert((spec_mirror_byte(b) >> i) & 1 == (b >> ((7 - i) as u8)) & 1) by (bit_vector)
        requires
            i < 8,
    ;
}

/// Mirroring a byte twice restores the original byte.
pub proof fn lemma_mirror_byte_involution(b: u8)
    ensures
        spec_mirror_byte(spec_mirror_byte(b)) == b,
{
    assert(spec_mirror_byte(spec_mirror_byte(b)) == b) by (bit_vector);
}

/// The mirror of the low `n` bits of `b`, built most-significant-first by
/// shifting an accumulator left and folding in the next bit of `b`. This is
/// the state of the table-construction loop after `n` iterations.
pub open spec fn rev_low_bits(b: u8, n: nat) -> u8
    decreases n,
{
    if n == 0 {
        0u8
    } else {
        (rev_low_bits(b, (n - 1) as nat) << 1) | ((b >> ((n - 1) as u8)) & 1)
    }
}

/// Folding in all eight bits of a byte yields exactly its mirror image.
pub proof fn lemma_rev_low_bits_mirrors(b: u8)
    ensures
        rev_low_bits(b, 8) == spec_mirror_byte(b),
{
    assert(rev_low_bits(b, 8) == spec_mirror_byte(b)) by (bit_vector);
}

/// A 16-bit value with the bits inside each of its two bytes mirrored; the
/// bytes themselves stay at their original positions.
pub open spec fn spec_mirror_word(v: u16) -> u16 {
    ((spec_mirror_byte(((v >> 8) & 0xff) as u8) as u16) << 8)
        | (spec_mirror_byte((v & 0xff) as u8) as u16)
}

/// A 32-bit value with the bits inside each of its four bytes mirrored; the
/// bytes themselves stay at their original positions.
pub open spec fn spec_mirror_dword(v: u32) -> u32 {
    ((spec_mirror_byte(((v >> 24) & 0xff) as u8) as u32) << 24)
        | ((spec_mirror_byte(((v >> 16) & 0xff) as u8) as u32) << 16)
        | ((spec_mirror_byte(((v >> 8) & 0xff) as u8) as u32) << 8)
        | (spec_mirror_byte((v & 0xff) as u8) as u32)
}

/// A 64-bit value with the bits inside each of its eight bytes mirrored;
/// the bytes themselves stay at their original positions.
pub open spec fn spec_mirror_qword(v: u64) -> u64 {
    ((spec_mirror_byte(((v >> 56) & 0xff) as u8) as u64) << 56)
        | ((spec_mirror_byte(((v >> 48) & 0xff) as u8) as u64) << 48)
        | ((spec_mirror_byte(((v >> 40) & 0xff) as u8) as u64) << 40)
        | ((spec_mirror_byte(((v >> 32) & 0xff) as u8) as u64) << 32)
        | ((spec_mirror_byte(((v >> 24) & 0xff) as u8) as u64) << 24)
        | ((spec_mirror_byte(((v >> 16) & 0xff) as u8) as u64) << 16)
        | ((spec_mirror_byte(((v >> 8) & 0xff) as u8) as u64) << 8)
        | (spec_mirror_byte((v & 0xff) as u8) as u64)
}

/// A byte sequence with the bits inside every element mirrored, each
/// element staying at its original index.
pub open spec fn spec_mirror_bytes(s: Seq<u8>) -> Seq<u8> {
    s.map_values(|b: u8| spec_mirror_byte(b))
}

/// Mirroring a 16-bit value never moves a byte: each byte of the result is
/// the mirror of the byte that stood at the same position in the input.
pub proof fn lemma_mirror_word_preserves_positions(v: u16)
    ensures
        (spec_mirror_word(v) & 0xff) as u8 == spec_mirror_byte((v & 0xff) as u8),
        ((spec_mirror_word(v) >> 8) & 0xff) as u8 == spec_mirror_byte(((v >> 8) & 0xff) as u8),
{
    assert((spec_mirror_word(v) & 0xff) as u8 == spec_mirror_byte((v & 0xff) as u8))
        by (bit_vector);
    assert(((spec_mirror_word(v) >> 8) & 0xff) as u8 == spec_mirror_byte(((v >> 8) & 0xff) as u8))
        by (bit_vector);
}

/// Mirroring a 32-bit value never moves a byte: each byte of the result is
/// the mirror of the byte that stood at the same position in the input.
pub proof fn lemma_mirror_dword_preserves_positions(v: u32)
    ensures
        (spec_mirror_dword(v) & 0xff) as u8 == spec_mirror_byte((v & 0xff) as u8),
        ((spec_mirror_dword(v) >> 8) & 0xff) as u8 == spec_mirror_byte(((v >> 8) & 0xff) as u8),
        ((spec_mirror_dword(v) >> 16) & 0xff) as u8 == spec_mirror_byte(
            ((v >> 16) & 0xff) as u8,
        ),
        ((spec_mirror_dword(v) >> 24) & 0xff) as u8 == spec_mirror_byte(
            ((v >> 24) & 0xff) as u8,
        ),
{
    assert((spec_mirror_dword(v) & 0xff) as u8 == spec_mirror_byte((v & 0xff) as u8))
        by (bit_vector);
    assert(((spec_mirror_dword(v) >> 8) & 0xff) as u8 == spec_mirror_byte(((v >> 8) & 0xff) as u8))
        by (bit_vector);
    assert(((spec_mirror_dword(v) >> 16) & 0xff) as u8 == spec_mirror_byte(
        ((v >> 16) & 0xff) as u8,
    )) by (bit_vector);
    assert(((spec_mirror_dword(v) >> 24) & 0xff) as u8 == spec_mirror_byte(
        ((v >> 24) & 0xff) as u8,
    )) by (bit_vector);
}

/// Mirroring a 64-bit value never moves a byte: each byte of the result is
/// the mirror of the byte that stood at the same position in the input.
pub proof fn lemma_mirror_qword_preserves_positions(v: u64)
    ensures
        (spec_mirror_qword(v) & 0xff) as u8 == spec_mirror_byte((v & 0xff) as u8),
        ((spec_mirror_qword(v) >> 8) & 0xff) as u8 == spec_mirror_byte(((v >> 8) & 0xff) as u8),
        ((spec_mirror_qword(v) >> 16) & 0xff) as u8 == spec_mirror_byte(
            ((v >> 16) & 0xff) as u8,
        ),
        ((spec_mirror_qword(v) >> 24) & 0xff) as u8 == spec_mirror_byte(
            ((v >> 24) & 0xff) as u8,
        ),
        ((spec_mirror_qword(v) >> 32) & 0xff) as u8 == spec_mirror_byte(
            ((v >> 32) & 0xff) as u8,
        ),
        ((spec_mirror_qword(v) >> 40) & 0xff) as u8 == spec_mirror_byte(
            ((v >> 40) & 0xff) as u8,
        ),
        ((spec_mirror_qword(v) >> 48) & 0xff) as u8 == spec_mirror_byte(
            ((v >> 48) & 0xff) as u8,
        ),
        ((spec_mirror_qword(v) >> 56) & 0xff) as u8 == spec_mirror_byte(
            ((v >> 56) & 0xff) as u8,
        ),
{
    assert((spec_mirror_qword(v) & 0xff) as u8 == spec_mirror_byte((v & 0xff) as u8))
        by (bit_vector);
    assert(((spec_mirror_qword(v) >> 8) & 0xff) as u8 == spec_mirror_byte(((v >> 8) & 0xff) as u8))
        by (bit_vector);
    assert(((spec_mirror_qword(v) >> 16) & 0xff) as u8 == spec_mirror_byte(
        ((v >> 16) & 0xff) as u8,
    )) by (bit_vector);
    assert(((spec_mirror_qword(v) >> 24) & 0xff) as u8 == spec_mirror_byte(
        ((v >> 24) & 0xff) as u8,
    )) by (bit_vector);
    assert(((spec_mirror_qword(v) >> 32) & 0xff) as u8 == spec_mirror_byte(
        ((v >> 32) & 0xff) as u8,
    )) by (bit_vector);
    assert(((spec_mirror_qword(v) >> 40) & 0xff) as u8 == spec_mirror_byte(
        ((v >> 40) & 0xff) as u8,
    )) by (bit_vector);
    assert(((spec_mirror_qword(v) >> 48) & 0xff) as u8 == spec_mirror_byte(
        ((v >> 48) & 0xff) as u8,
    )) by (bit_vector);
    assert(((spec_mirror_qword(v) >> 56) & 0xff) as u8 == spec_mirror_byte(
        ((v >> 56) & 0xff) as u8,
    )) by (bit_vector);
}

/// Mirroring a 16-bit value twice restores the original value.
pub proof fn lemma_mirror_word_involution(v: u16)
    ensures
        spec_mirror_word(spec_mirror_word(v)) == v,
{
    assert(spec_mirror_word(spec_mirror_word(v)) == v) by (bit_vector);
}

/// Mirroring a 32-bit value twice restores the original value.
pub proof fn lemma_mirror_dword_involution(v: u32)
    ensures
        spec_mirror_dword(spec_mirror_dword(v)) == v,
{
    assert(spec_mirror_dword(spec_mirror_dword(v)) == v) by (bit_vector);
}

/// Mirroring a 64-bit value twice restores the original value.
pub proof fn lemma_mirror_qword_involution(v: u64)
    ensures
        spec_mirror_qword(spec_mirror_qword(v)) == v,
{
    assert(spec_mirror_qword(spec_mirror_qword(v)) == v) by (bit_vector);
}

/// Mirroring every byte of a sequence twice restores the original sequence.
pub proof fn lemma_mirror_bytes_involution(s: Seq<u8>)
    ensures
        spec_mirror_bytes(spec_mirror_bytes(s)) == s,
{
    assert forall|i: int| 0 <= i < s.len() implies #[trigger] spec_mirror_bytes(
        spec_mirror_bytes(s),
    )[i] == s[i] by {
        lemma_mirror_byte_involution(s[i]);
    }
    assert(spec_mirror_bytes(spec_mirror_bytes(s)) =~= s);
}

} // verus!

//! The table-driven engine: a 256-entry lookup table built once, and the
//! mirror operations on bytes, wider fixed-width values, and byte buffers.

use vstd::prelude::*;

verus! {

use crate::bits::{
    spec_mirror_byte,
    spec_mirror_word,
    spec_mirror_dword,
    spec_mirror_qword,
    spec_mirror_bytes,
    rev_low_bits,
    lemma_rev_low_bits_mirrors,
};

/// Mirrors the bit order inside each byte of a value, leaving every byte at
/// its original position.
///
/// The table maps each byte value to its bit-reversed image. It is filled
/// once by `new` and only read afterwards, so an engine may be shared
/// freely between callers.
pub struct BitReversalEngine {
    table: Vec<u8>,
}

impl BitReversalEngine {
    /// The table holds the mirror of every byte value.
    pub closed spec fn wf(&self) -> bool {
        &&& self.table@.len() == 256
        &&& forall|i: int| 0 <= i < 256 ==> #[trigger] self.table@[i] == spec_mirror_byte(i as u8)
    }

    /// Build the engine by computing the mirror of each of the 256 byte
    /// values: eight times, shift an accumulator left by one bit, fold in
    /// the lowest remaining input bit, and drop that bit from the input.
    pub fn new() -> (engine: Self)
        ensures
            engine.wf(),
    {
        let mut table: Vec<u8> = Vec::new();
        let mut i: usize = 0;
        while i < 256
            invariant
                i <= 256,
                table@.len() == i,
                forall|k: int| 0 <= k < i ==> #[trigger] table@[k] == spec_mirror_byte(k as u8),
            decreases 256 - i,
        {
            let b: u8 = i as u8;
            let mut value: u8 = b;
            let mut result: u8 = 0;
            let mut j: u8 = 0;
            proof {
                assert(b >> 0u8 == b) by (bit_vector);
            }
            while j < 8
                invariant
                    j <= 8,
                    value == b >> j,
                    result == rev_low_bits(b, j as nat),
                decreases 8 - j,
            {
                result = (result << 1) | (value & 1);
                value = value >> 1;
                proof {
                    assert((b >> j) >> 1 == b >> (j + 1)) by (bit_vector)
                        requires
                            j < 8,
                    ;
                    assert(rev_low_bits(b, (j + 1) as nat) == (rev_low_bits(b, j as nat) << 1) | (
                    (b >> j) & 1));
                }
                j = j + 1;
            }
            proof {
                lemma_rev_low_bits_mirrors(b);
            }
            table.push(result);
            i = i + 1;
        }
        BitReversalEngine { table }
    }

    /// Mirror the bit order inside a single byte.
    pub fn mirror_byte(&self, value: u8) -> (r: u8)
        requires
            self.wf(),
        ensures
            r == spec_mirror_byte(value),
    {
        self.table[value as usize]
    }

    /// Mirror the bits inside each byte of a 16-bit value; the two bytes
    /// keep their positions.
    pub fn mirror_word(&self, value: u16) -> (r: u16)
        requires
            self.wf(),
        ensures
            r == spec_mirror_word(value),
    {
        let low: u8 = self.mirror_byte((value & 0xff) as u8);
        let high: u8 = self.mirror_byte(((value >> 8) & 0xff) as u8);
        ((high as u16) << 8) | (low as u16)
    }

    /// Mirror the bits inside each byte of a 32-bit value; the four bytes
    /// keep their positions.
    pub fn mirror_dword(&self, value: u32) -> (r: u32)
        requires
            self.wf(),
        ensures
            r == spec_mirror_dword(value),
    {
        let b0: u8 = self.mirror_byte((value & 0xff) as u8);
        let b1: u8 = self.mirror_byte(((value >> 8) & 0xff) as u8);
        let b2: u8 = self.mirror_byte(((value >> 16) & 0xff) as u8);
        let b3: u8 = self.mirror_byte(((value >> 24) & 0xff) as u8);
        ((b3 as u32) << 24) | ((b2 as u32) << 16) | ((b1 as u32) << 8) | (b0 as u32)
    }

    /// Mirror the bits inside each byte of a 64-bit value; the eight bytes
    /// keep their positions.
    pub fn mirror_qword(&self, value: u64) -> (r: u64)
        requires
            self.wf(),
        ensures
            r == spec_mirror_qword(value),
    {
        let b0: u8 = self.mirror_byte((value & 0xff) as u8);
        let b1: u8 = self.mirror_byte(((value >> 8) & 0xff) as u8);
        let b2: u8 = self.mirror_byte(((value >> 16) & 0xff) as u8);
        let b3: u8 = self.mirror_byte(((value >> 24) & 0xff) as u8);
        let b4: u8 = self.mirror_byte(((value >> 32) & 0xff) as u8);
        let b5: u8 = self.mirror_byte(((value >> 40) & 0xff) as u8);
        let b6: u8 = self.mirror_byte(((value >> 48) & 0xff) as u8);
        let b7: u8 = self.mirror_byte(((value >> 56) & 0xff) as u8);
        ((b7 as u64) << 56) | ((b6 as u64) << 48) | ((b5 as u64) << 40) | ((b4 as u64) << 32) | (
        (b3 as u64) << 24) | ((b2 as u64) << 16) | ((b1 as u64) << 8) | (b0 as u64)
    }

    /// Mirror the bits inside every byte of a buffer. The input is left
    /// untouched; the result has the same length, and element `i` depends
    /// only on element `i` of the input.
    pub fn mirror_bytes(&self, input: &[u8]) -> (out: Vec<u8>)
        requires
            self.wf(),
        ensures
            out@ == spec_mirror_bytes(input@),
            out@.len() == input@.len(),
            forall|i: int|
                0 <= i < input@.len() ==> #[trigger] out@[i] == spec_mirror_byte(input@[i]),
    {
        let mut out: Vec<u8> = Vec::new();
        let mut idx: usize = 0;
        while idx < input.len()
            invariant
                self.wf(),
                idx <= input@.len(),
                out@.len() == idx,
                forall|k: int| 0 <= k < idx ==> #[trigger] out@[k] == spec_mirror_byte(input@[k]),
            decreases input@.len() - idx,
        {
            let mirrored: u8 = self.mirror_byte(input[idx]);
            out.push(mirrored);
            idx = idx + 1;
        }
        proof {
            assert(out@ =~= spec_mirror_bytes(input@));
        }
        out
    }
}

} // verus!

//! Leading-zero-bit difficulty over 32-byte hashes.
//!
//! A hash meets difficulty `bits` when at least `bits` leading bits,
//! read byte by byte from the most significant end, are zero.

use vstd::prelude::*;
use vstd::std_specs::bits::u8_leading_zeros;

verus! {

/// Difficulty interpretation used by the Equi-X backend.
#[derive(Clone, Copy, Debug, PartialEq, Eq, Structural)]
pub enum DifficultyMode {
    LeadingZeroBits,
}

/// Number of leading zero bits of a byte string, big-endian bit order
/// within each byte.
pub open spec fn lzb(h: Seq<u8>) -> nat
    decreases h.len(),
{
    if h.len() == 0 {
        0
    } else if h[0] == 0 {
        (8 + lzb(h.drop_first())) as nat
    } else {
        u8_leading_zeros(h[0]) as nat
    }
}

/// A hash meets difficulty `bits` when it has at least `bits` leading
/// zero bits.
pub open spec fn spec_meets_bits(h: Seq<u8>, bits: u32) -> bool {
    lzb(h) >= bits
}

/// The count of leading zero bits never exceeds the bit width of the
/// string.
pub proof fn lemma_lzb_bound(h: Seq<u8>)
    ensures
        lzb(h) <= 8 * h.len(),
    decreases h.len(),
{
    vstd::std_specs::bits::axiom_u8_leading_zeros(if h.len() == 0 {
        0u8
    } else {
        h[0]
    });
    if h.len() == 0 {
    } else if h[0] == 0 {
        lemma_lzb_bound(h.drop_first());
    }
}

/// Difficulty zero is met by every hash.
pub proof fn lemma_zero_bits_accepts_all(h: Seq<u8>)
    ensures
        spec_meets_bits(h, 0),
{
}

/// A difficulty above 256 bits is met by no 32-byte hash.
pub proof fn lemma_excessive_bits_reject_all(h: Seq<u8>, bits: u32)
    requires
        h.len() == 32,
        bits > 256,
    ensures
        !spec_meets_bits(h, bits),
{
    lemma_lzb_bound(h);
}

proof fn lemma_lzb_step(h: Seq<u8>, i: int)
    requires
        0 <= i < h.len(),
        forall|j: int| 0 <= j < i ==> h[j] == 0,
    ensures
        h[i] == 0 ==> lzb(h) >= 8 * (i + 1),
        h[i] != 0 ==> lzb(h) == 8 * i + u8_leading_zeros(h[i]),
    decreases i,
{
    if i == 0 {
        vstd::std_specs::bits::axiom_u8_leading_zeros(h[0]);
        if h[0] == 0 {
            lemma_lzb_bound(h.drop_first());
        }
    } else {
        lemma_lzb_step(h.drop_first(), i - 1);
        assert(h.drop_first()[i - 1] == h[i]);
    }
}

/// Count the leading zero bits of a 32-byte hash.
pub fn leading_zero_bits(hash: &[u8; 32]) -> (count: u32)
    ensures
        count == lzb(hash@),
{
    let mut count: u32 = 0;
    let mut i: usize = 0;
    while i < 32
        invariant
            0 <= i <= 32,
            count == 8 * i,
            forall|j: int| 0 <= j < i ==> hash@[j] == 0,
        decreases 32 - i,
    {
        let byte = hash[i];
        if byte == 0 {
            count += 8;
            i += 1;
        } else {
            proof {
                lemma_lzb_step(hash@, i as int);
                vstd::std_specs::bits::axiom_u8_leading_zeros(byte);
            }
            return count + byte.leading_zeros();
        }
    }
    proof {
        lemma_lzb_step(hash@, 31);
        lemma_lzb_bound(hash@);
    }
    count
}

/// Whether a 32-byte hash meets a leading-zero-bit difficulty.
///
/// Difficulty 0 is met by every hash; a difficulty above 256 by none.
pub fn meets_leading_zero_bits(hash: &[u8; 32], bits: u32) -> (r: bool)
    ensures
        r == spec_meets_bits(hash@, bits),
{
    leading_zero_bits(hash) >= bits
}

} // verus!

//! The padder: appends the 0x80 terminator, the minimal zero run, and the
//! big-endian 64-bit bit length, so the result is whole 64-byte blocks.

use vstd::prelude::*;

use crate::lemmas::lemma_padded_len_lower;
use crate::model::{be64, max_len, padded, padded_len};

verus! {

/// The masked rounding the padder computes equals 64 times the block count,
/// and lies at least nine and at most seventy-two bytes past the message.
proof fn lemma_zero_count(x: u64)
    by (bit_vector)
    requires
        x <= 0x1FFFFFFFFFFFFFF7,
    ensures
        (((x + 9 + 63) as u64) & !63u64) == 64 * ((x + 9 + 63) / 64),
        x + 9 <= (((x + 9 + 63) as u64) & !63u64) <= x + 9 + 63,
{
}

/// The bit length of a message is its byte length shifted left by three.
proof fn lemma_bit_length(x: u64)
    by (bit_vector)
    requires
        x <= 0x1FFFFFFFFFFFFFF7,
    ensures
        (x << 3u64) == ((x * 8) as u64),
{
}

/// Appends the big-endian eight-byte serialization of a 64-bit value.
fn push_u64_be(out: &mut Vec<u8>, x: u64)
    ensures
        final(out)@ == old(out)@ + be64(x),
{
    out.push((x >> 56) as u8);
    out.push((x >> 48) as u8);
    out.push((x >> 40) as u8);
    out.push((x >> 32) as u8);
    out.push((x >> 24) as u8);
    out.push((x >> 16) as u8);
    out.push((x >> 8) as u8);
    out.push(x as u8);
    assert(out@ =~= old(out)@ + be64(x));
}

/// Pads a message into whole 64-byte blocks: the input, one 0x80 byte, the
/// minimal run of zero bytes, and the big-endian 64-bit bit length.
pub fn padding(bytes: &[u8]) -> (r: Vec<u8>)
    requires
        bytes@.len() <= max_len(),
    ensures
        r@ == padded(bytes@),
        r@.len() == padded_len(bytes@.len()),
        r@.len() % 64 == 0,
{
    let original_length = bytes.len();
    let len64 = original_length as u64;
    proof {
        lemma_zero_count(len64);
        lemma_padded_len_lower(bytes@.len());
    }
    let zero_count = (((len64 + 9 + 63) & !63u64) - len64 - 9) as usize;
    assert(zero_count == padded_len(bytes@.len()) - bytes@.len() - 9);

    let mut message = vstd::slice::slice_to_vec(bytes);
    message.push(0x80);
    let mut pushed: usize = 0;
    while pushed < zero_count
        invariant
            pushed <= zero_count,
            message@ == bytes@ + seq![0x80u8] + Seq::new(pushed as nat, |i: int| 0u8),
        decreases zero_count - pushed,
    {
        message.push(0);
        pushed += 1;
        assert(message@ =~= bytes@ + seq![0x80u8] + Seq::new(pushed as nat, |i: int| 0u8));
    }
    proof {
        lemma_bit_length(len64);
    }
    push_u64_be(&mut message, len64 << 3);
    proof {
        assert(message@ =~= padded(bytes@));
        crate::lemmas::lemma_padded_len(bytes@);
    }
    message
}

} // verus!

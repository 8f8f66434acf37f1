//! Executable helpers on 32-bit words: rotation, wrapping addition, and
//! big-endian loads and stores, each proved against the model.

use vstd::prelude::*;

use crate::model::{be32, rotl, wadd, word_be};

verus! {

/// Left rotation of a 32-bit word by `n` bits.
pub fn rotl_u32(x: u32, n: u32) -> (r: u32)
    requires
        0 < n < 32,
    ensures
        r == rotl(x, n),
{
    (x << n) | (x >> (32 - n))
}

/// Proves that the standard wrapping addition matches the model's `wadd`.
proof fn lemma_wrapping_add_is_wadd(x: u32, y: u32)
    by (bit_vector)
    ensures
        vstd::wrapping::u32_specs::wrapping_add(x, y) == wadd(x, y),
{
}

/// Wrapping 32-bit addition.
pub fn add32(x: u32, y: u32) -> (r: u32)
    ensures
        r == wadd(x, y),
{
    proof {
        lemma_wrapping_add_is_wadd(x, y);
    }
    x.wrapping_add(y)
}

/// Big-endian 32-bit load of four consecutive bytes of a slice.
pub fn load_word_be(bytes: &[u8], i: usize) -> (r: u32)
    requires
        i + 4 <= bytes@.len(),
    ensures
        r == word_be(bytes@[i as int], bytes@[i + 1], bytes@[i + 2], bytes@[i + 3]),
{
    ((bytes[i] as u32) << 24) | ((bytes[i + 1] as u32) << 16) | ((bytes[i + 2] as u32) << 8) | (
    bytes[i + 3] as u32)
}

/// Appends the big-endian four-byte serialization of a word.
pub fn push_word_be(out: &mut Vec<u8>, x: u32)
    ensures
        final(out)@ == old(out)@ + be32(x),
{
    out.push((x >> 24) as u8);
    out.push((x >> 16) as u8);
    out.push((x >> 8) as u8);
    out.push(x as u8);
    assert(out@ =~= old(out)@ + be32(x));
}

} // verus!

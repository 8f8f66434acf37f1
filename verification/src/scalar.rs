//! SCALAR back-end: the portable compressor.  All eighty schedule words are
//! materialized one at a time and the classic round loop runs over them.

use vstd::prelude::*;

use crate::model::{
    block_words, compress, f_choice, f_majority, f_parity, f_round, k_round, rotl, round, rounds,
    w, word_be,
};
use crate::words::{add32, load_word_be, rotl_u32};

verus! {

/// CHOICE: each bit of the result picks `c` or `d` as `b` directs.
pub fn choice(b: u32, c: u32, d: u32) -> (r: u32)
    ensures
        r == f_choice(b, c, d),
{
    b & c ^ !b & d
}

/// MAJORITY: each bit of the result is the majority vote of `b`, `c`, `d`.
pub fn majority(b: u32, c: u32, d: u32) -> (r: u32)
    ensures
        r == f_majority(b, c, d),
{
    b & c ^ b & d ^ c & d
}

/// PARITY: the bitwise parity of `b`, `c`, `d`.
pub fn parity(b: u32, c: u32, d: u32) -> (r: u32)
    ensures
        r == f_parity(b, c, d),
{
    b ^ c ^ d
}

/// The round function selected by round index `t`.
pub(crate) fn f_value(t: usize, b: u32, c: u32, d: u32) -> (r: u32)
    ensures
        r == f_round(t as int, b, c, d),
{
    if t < 20 {
        choice(b, c, d)
    } else if t < 40 {
        parity(b, c, d)
    } else if t < 60 {
        majority(b, c, d)
    } else {
        parity(b, c, d)
    }
}

/// The round constant selected by round index `t`.
pub(crate) fn k_value(t: usize) -> (r: u32)
    ensures
        r == k_round(t as int),
{
    if t < 20 {
        0x5A827999
    } else if t < 40 {
        0x6ED9EBA1
    } else if t < 60 {
        0x8F1BBCDC
    } else {
        0xCA62C1D6
    }
}

/// Folds one 64-byte block into the running state with the scalar round
/// loop.  The post-state is the pre-state plus the final working variables,
/// lane-wise with wrapping addition, exactly the reference compression.
pub fn compress_block(hash_value: [u32; 5], bytes: &[u8]) -> (r: [u32; 5])
    requires
        bytes@.len() == 64,
    ensures
        r@ == compress(hash_value@, block_words(bytes@)),
{
    let ghost m = block_words(bytes@);
    let mut warr = [0u32; 80];
    let mut t: usize = 0;
    while t < 16
        invariant
            t <= 16,
            bytes@.len() == 64,
            m == block_words(bytes@),
            forall|j: int| 0 <= j < t ==> warr@[j] == w(m, j),
        decreases 16 - t,
    {
        let word = load_word_be(bytes, 4 * t);
        warr[t] = word;
        proof {
            assert(m[t as int] == word_be(
                bytes@[4 * t as int],
                bytes@[4 * t as int + 1],
                bytes@[4 * t as int + 2],
                bytes@[4 * t as int + 3],
            ));
        }
        t += 1;
    }
    while t < 80
        invariant
            16 <= t <= 80,
            forall|j: int| 0 <= j < t ==> warr@[j] == w(m, j),
        decreases 80 - t,
    {
        let x = ((warr[t - 3] ^ warr[t - 8]) ^ warr[t - 14]) ^ warr[t - 16];
        let word = rotl_u32(x, 1);
        warr[t] = word;
        proof {
            assert(w(m, t as int) == rotl(
                ((w(m, t as int - 3) ^ w(m, t as int - 8)) ^ w(m, t as int - 14)) ^ w(
                    m,
                    t as int - 16,
                ),
                1,
            ));
        }
        t += 1;
    }

    let mut a = hash_value[0];
    let mut b = hash_value[1];
    let mut c = hash_value[2];
    let mut d = hash_value[3];
    let mut e = hash_value[4];
    let mut t: usize = 0;
    while t < 80
        invariant
            t <= 80,
            (a, b, c, d, e) == rounds(hash_value@, m, t as int),
            forall|j: int| 0 <= j < 80 ==> warr@[j] == w(m, j),
        decreases 80 - t,
    {
        let fv = f_value(t, b, c, d);
        let kv = k_value(t);
        let tmp = add32(add32(add32(add32(rotl_u32(a, 5), fv), e), warr[t]), kv);
        proof {
            assert(tmp == round(rounds(hash_value@, m, t as int), w(m, t as int), t as int).0);
        }
        e = d;
        d = c;
        c = rotl_u32(b, 30);
        b = a;
        a = tmp;
        t += 1;
    }

    let mut out = [0u32; 5];
    out[0] = add32(hash_value[0], a);
    out[1] = add32(hash_value[1], b);
    out[2] = add32(hash_value[2], c);
    out[3] = add32(hash_value[3], d);
    out[4] = add32(hash_value[4], e);
    proof {
        assert(out@ =~= compress(hash_value@, m));
    }
    out
}

} // verus!

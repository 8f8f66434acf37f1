//! The mathematical model of SHA-1: message words, the schedule recurrence,
//! the round iteration, block compression, padding, and the digest, exactly
//! as FIPS 180-4 states them.  Every executable back-end is proved against
//! these functions.

use vstd::prelude::*;

verus! {

// --- 32-bit word primitives ---

/// `x` rotated left by `n` bits (0 < n < 32).
pub open spec fn rotl(x: u32, n: u32) -> u32
    recommends
        0 < n < 32,
{
    (x << n) | (x >> ((32 - n) as u32))
}

/// Wrapping 32-bit addition.
pub open spec fn wadd(x: u32, y: u32) -> u32 {
    ((x + y) as u32)
}

// --- round functions and round constants ---

pub open spec fn f_choice(b: u32, c: u32, d: u32) -> u32 {
    (b & c) ^ (!b & d)
}

pub open spec fn f_parity(b: u32, c: u32, d: u32) -> u32 {
    b ^ c ^ d
}

pub open spec fn f_majority(b: u32, c: u32, d: u32) -> u32 {
    (b & c) ^ (b & d) ^ (c & d)
}

/// The round function selected by round index `t`.
pub open spec fn f_round(t: int, b: u32, c: u32, d: u32) -> u32 {
    if t < 20 {
        f_choice(b, c, d)
    } else if t < 40 {
        f_parity(b, c, d)
    } else if t < 60 {
        f_majority(b, c, d)
    } else {
        f_parity(b, c, d)
    }
}

/// The round constant selected by round index `t`.
pub open spec fn k_round(t: int) -> u32 {
    if t < 20 {
        0x5A827999
    } else if t < 40 {
        0x6ED9EBA1
    } else if t < 60 {
        0x8F1BBCDC
    } else {
        0xCA62C1D6
    }
}

// --- message words and the schedule ---

/// Big-endian 32-bit word assembled from four bytes.
pub open spec fn word_be(b0: u8, b1: u8, b2: u8, b3: u8) -> u32 {
    ((b0 as u32) << 24) | ((b1 as u32) << 16) | ((b2 as u32) << 8) | (b3 as u32)
}

/// The sixteen big-endian message words of a 64-byte block.
pub open spec fn block_words(block: Seq<u8>) -> Seq<u32>
    recommends
        block.len() == 64,
{
    Seq::new(16, |i: int| word_be(block[4 * i], block[4 * i + 1], block[4 * i + 2], block[4 * i + 3]))
}

/// Schedule word W_t of a block with message words `m`:
/// W_t = M_t for t < 16, and
/// W_t = rotl1(W_{t-3} ^ W_{t-8} ^ W_{t-14} ^ W_{t-16}) for t >= 16.
pub open spec fn w(m: Seq<u32>, t: int) -> u32
    recommends
        m.len() == 16,
        0 <= t < 80,
    decreases t,
{
    if t < 16 {
        m[t]
    } else {
        rotl(w(m, t - 3) ^ w(m, t - 8) ^ w(m, t - 14) ^ w(m, t - 16), 1)
    }
}

// --- the round iteration ---

/// One SHA-1 round applied to the working state (a, b, c, d, e).
pub open spec fn round(s: (u32, u32, u32, u32, u32), wt: u32, t: int) -> (u32, u32, u32, u32, u32) {
    let (a, b, c, d, e) = s;
    (
        wadd(wadd(wadd(wadd(rotl(a, 5), f_round(t, b, c, d)), e), wt), k_round(t)),
        a,
        rotl(b, 30),
        c,
        d,
    )
}

/// The working state after the first `t` rounds, starting from state `h`.
pub open spec fn rounds(h: Seq<u32>, m: Seq<u32>, t: int) -> (u32, u32, u32, u32, u32)
    recommends
        h.len() == 5,
        m.len() == 16,
        0 <= t <= 80,
    decreases t,
{
    if t <= 0 {
        (h[0], h[1], h[2], h[3], h[4])
    } else {
        round(rounds(h, m, t - 1), w(m, t - 1), t - 1)
    }
}

/// One block folded into the running state: 80 rounds, then a lane-wise
/// wrapping addition of the pre-state.
pub open spec fn compress(h: Seq<u32>, m: Seq<u32>) -> Seq<u32>
    recommends
        h.len() == 5,
        m.len() == 16,
{
    let (a, b, c, d, e) = rounds(h, m, 80);
    seq![wadd(h[0], a), wadd(h[1], b), wadd(h[2], c), wadd(h[3], d), wadd(h[4], e)]
}

/// The fixed SHA-1 initialization vector.
pub open spec fn iv() -> Seq<u32> {
    seq![0x67452301u32, 0xEFCDAB89u32, 0x98BADCFEu32, 0x10325476u32, 0xC3D2E1F0u32]
}

/// The running state after the first `n` blocks of a padded message `p`.
pub open spec fn state_after(p: Seq<u8>, n: int) -> Seq<u32>
    recommends
        p.len() % 64 == 0,
        0 <= n,
        64 * n <= p.len(),
    decreases n,
{
    if n <= 0 {
        iv()
    } else {
        compress(state_after(p, n - 1), block_words(p.subrange(64 * (n - 1), 64 * n)))
    }
}

// --- padding ---

/// The number of whole 64-byte blocks that a message of `l` bytes pads to.
pub open spec fn block_count(l: nat) -> nat {
    ((l + 9 + 63) / 64) as nat
}

/// The padded length of a message of `l` bytes: 64 times the block count.
pub open spec fn padded_len(l: nat) -> nat {
    (64 * block_count(l)) as nat
}

/// The greatest message length accepted: the bit length 8 * l must fit in
/// 64 bits together with the terminator and length suffix.
pub open spec fn max_len() -> nat {
    (0x2000000000000000 - 9) as nat
}

/// Big-endian eight-byte encoding of a 64-bit value.
pub open spec fn be64(x: u64) -> Seq<u8> {
    seq![
        (x >> 56) as u8,
        (x >> 48) as u8,
        (x >> 40) as u8,
        (x >> 32) as u8,
        (x >> 24) as u8,
        (x >> 16) as u8,
        (x >> 8) as u8,
        x as u8,
    ]
}

/// The padded message: the input, one 0x80 byte, the minimal run of zero
/// bytes, and the big-endian 64-bit bit length.
pub open spec fn padded(b: Seq<u8>) -> Seq<u8>
    recommends
        b.len() <= max_len(),
{
    b + seq![0x80u8] + Seq::new((padded_len(b.len()) - b.len() - 9) as nat, |i: int| 0u8) + be64(
        (b.len() * 8) as u64,
    )
}

// --- the digest ---

/// Big-endian four-byte serialization of one state word.
pub open spec fn be32(x: u32) -> Seq<u8> {
    seq![(x >> 24) as u8, (x >> 16) as u8, (x >> 8) as u8, x as u8]
}

/// The 20-byte digest serialized from a final state.
pub open spec fn digest_bytes(h: Seq<u32>) -> Seq<u8>
    recommends
        h.len() == 5,
{
    be32(h[0]) + be32(h[1]) + be32(h[2]) + be32(h[3]) + be32(h[4])
}

/// The SHA-1 digest of an arbitrary message.
pub open spec fn sha1(b: Seq<u8>) -> Seq<u8>
    recommends
        b.len() <= max_len(),
{
    digest_bytes(state_after(padded(b), block_count(b.len()) as int))
}

} // verus!

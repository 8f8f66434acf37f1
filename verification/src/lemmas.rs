//! Laws of the model: the schedule recurrence and its iterated forms with
//! strides of two and four rotations, digest length, determinism, and the
//! padded-length formula.

use vstd::prelude::*;

use crate::model::{
    block_count, compress, max_len, padded, padded_len, rotl, rounds, sha1, w, wadd,
};

verus! {

/// Rotation of a four-way xor does not depend on how the xor associates.
pub(crate) proof fn lemma_rotl_xor4(a: u32, b: u32, c: u32, d: u32, n: u32)
    by (bit_vector)
    requires
        0 < n < 32,
    ensures
        rotl((a ^ b) ^ (c ^ d), n) == rotl(((a ^ b) ^ c) ^ d, n),
{
}

/// Xor with a rotated zero word changes nothing.
pub(crate) proof fn lemma_xor_rotl1_zero(x: u32)
    by (bit_vector)
    ensures
        x ^ rotl(0, 1) == x,
{
}

/// The spliced top lane of the two-step schedule fold: rotating the three
/// independent contributions and xoring in the rotated just-computed word
/// equals one rotation of the full four-way xor.
pub(crate) proof fn lemma_fold_lane(wt: u32, a: u32, b: u32, c: u32)
    by (bit_vector)
    ensures
        rotl((0 ^ a) ^ (b ^ c), 1) ^ rotl(wt, 1) == rotl(((wt ^ a) ^ b) ^ c, 1),
{
}

/// The round temporary may be accumulated starting from `e` with a
/// precomputed W + K addend: wrapping addition commutes and associates.
pub(crate) proof fn lemma_round_order(r5: u32, f: u32, e: u32, wt: u32, k: u32)
    by (bit_vector)
    ensures
        wadd(wadd(wadd(e, r5), f), wadd(wt, k)) == wadd(wadd(wadd(wadd(r5, f), e), wt), k),
{
}

/// The round temporary may also fold the E addend into the schedule word
/// before the constant is added.
pub(crate) proof fn lemma_round_order_ew(s: u32, e: u32, wt: u32, k: u32)
    by (bit_vector)
    ensures
        wadd(wadd(s, wadd(e, wt)), k) == wadd(wadd(wadd(s, e), wt), k),
{
}

/// The three xor contributions of a fused schedule helper, accumulated in
/// hardware order, rotate to the same word as the defining order.
pub(crate) proof fn lemma_su_lane(x3: u32, x8: u32, x14: u32, x16: u32)
    by (bit_vector)
    ensures
        rotl(((x14 ^ x16) ^ x8) ^ x3, 1) == rotl(((x3 ^ x8) ^ x14) ^ x16, 1),
{
}

/// The top lane of the fused schedule pair: the partial xor rotated once,
/// folded with the twice-rotated first lane, equals the defining recurrence
/// on the just-computed word.
pub(crate) proof fn lemma_su_top(t0: u32, x5: u32, x11: u32, x13: u32)
    by (bit_vector)
    ensures
        rotl(((x11 ^ x13) ^ x5) ^ 0, 1) ^ rotl(t0, 2) == rotl(
            ((rotl(t0, 1) ^ x5) ^ x11) ^ x13,
            1,
        ),
{
}

/// The top lane of the finalization helper: the partial xor folded with the
/// just-computed word before the single rotation.
pub(crate) proof fn lemma_msg2_top(wt: u32, x5: u32, x11: u32, x13: u32)
    by (bit_vector)
    ensures
        rotl(((x13 ^ x11) ^ x5) ^ wt, 1) == rotl(((wt ^ x5) ^ x11) ^ x13, 1),
{
}

/// For every t in [16, 79], the schedule word W_t equals the defining
/// recurrence applied to the stored words W_{t-3}, W_{t-8}, W_{t-14},
/// W_{t-16}.
pub proof fn lemma_w_recurrence(m: Seq<u32>, t: int)
    requires
        m.len() == 16,
        16 <= t <= 79,
    ensures
        w(m, t) == rotl(((w(m, t - 3) ^ w(m, t - 8)) ^ w(m, t - 14)) ^ w(m, t - 16), 1),
{
}

/// The recurrence iterated once: for t >= 32, W_t also comes from the words
/// six, sixteen, twenty-eight and thirty-two places back, rotated by two.
pub proof fn lemma_w_stride2(m: Seq<u32>, t: int)
    requires
        m.len() == 16,
        32 <= t <= 79,
    ensures
        w(m, t) == rotl(((w(m, t - 6) ^ w(m, t - 16)) ^ w(m, t - 28)) ^ w(m, t - 32), 2),
{
    let a: u32 = w(m, t - 6);
    let b: u32 = w(m, t - 11);
    let c: u32 = w(m, t - 17);
    let d: u32 = w(m, t - 19);
    let e: u32 = w(m, t - 16);
    let f: u32 = w(m, t - 22);
    let g: u32 = w(m, t - 24);
    let h: u32 = w(m, t - 28);
    let i: u32 = w(m, t - 30);
    let j: u32 = w(m, t - 32);
    assert(w(m, t - 3) == rotl(((a ^ b) ^ c) ^ d, 1));
    assert(w(m, t - 8) == rotl(((b ^ e) ^ f) ^ g, 1));
    assert(w(m, t - 14) == rotl(((c ^ f) ^ h) ^ i, 1));
    assert(w(m, t - 16) == rotl(((d ^ g) ^ i) ^ j, 1));
    assert(w(m, t) == rotl(((w(m, t - 3) ^ w(m, t - 8)) ^ w(m, t - 14)) ^ w(m, t - 16), 1));
    assert(rotl(
        ((rotl(((a ^ b) ^ c) ^ d, 1) ^ rotl(((b ^ e) ^ f) ^ g, 1)) ^ rotl(((c ^ f) ^ h) ^ i, 1))
            ^ rotl(((d ^ g) ^ i) ^ j, 1),
        1,
    ) == rotl(((a ^ e) ^ h) ^ j, 2)) by (bit_vector);
}

/// The recurrence iterated twice: for t >= 64, W_t also comes from the words
/// twelve, thirty-two, fifty-six and sixty-four places back, rotated by four.
pub proof fn lemma_w_stride4(m: Seq<u32>, t: int)
    requires
        m.len() == 16,
        64 <= t <= 79,
    ensures
        w(m, t) == rotl(((w(m, t - 12) ^ w(m, t - 32)) ^ w(m, t - 56)) ^ w(m, t - 64), 4),
{
    lemma_w_stride2(m, t);
    lemma_w_stride2(m, t - 6);
    lemma_w_stride2(m, t - 16);
    lemma_w_stride2(m, t - 28);
    lemma_w_stride2(m, t - 32);
    let a: u32 = w(m, t - 12);
    let b: u32 = w(m, t - 22);
    let c: u32 = w(m, t - 34);
    let d: u32 = w(m, t - 38);
    let e: u32 = w(m, t - 32);
    let f: u32 = w(m, t - 44);
    let g: u32 = w(m, t - 48);
    let h: u32 = w(m, t - 56);
    let i: u32 = w(m, t - 60);
    let j: u32 = w(m, t - 64);
    assert(rotl(
        ((rotl(((a ^ b) ^ c) ^ d, 2) ^ rotl(((b ^ e) ^ f) ^ g, 2)) ^ rotl(((c ^ f) ^ h) ^ i, 2))
            ^ rotl(((d ^ g) ^ i) ^ j, 2),
        2,
    ) == rotl(((a ^ e) ^ h) ^ j, 4)) by (bit_vector);
}

/// Every digest is exactly twenty bytes.
pub proof fn lemma_sha1_len(b: Seq<u8>)
    ensures
        sha1(b).len() == 20,
{
}

/// Determinism: equal messages have equal digests.
pub proof fn lemma_sha1_deterministic(b1: Seq<u8>, b2: Seq<u8>)
    requires
        b1 == b2,
    ensures
        sha1(b1) == sha1(b2),
{
}

/// After each block, the post-state is the pre-state plus the final working
/// variables, lane-wise with 32-bit wrapping addition.
pub proof fn lemma_compress_adds_state(h: Seq<u32>, m: Seq<u32>)
    requires
        h.len() == 5,
        m.len() == 16,
    ensures
        ({
            let (a, b, c, d, e) = rounds(h, m, 80);
            compress(h, m) == seq![
                wadd(h[0], a),
                wadd(h[1], b),
                wadd(h[2], c),
                wadd(h[3], d),
                wadd(h[4], e),
            ]
        }),
{
}

/// The number of zero bytes the padder inserts is well defined: the padded
/// length is at least nine bytes past the message.
pub(crate) proof fn lemma_padded_len_lower(l: nat)
    ensures
        padded_len(l) >= l + 9,
        padded_len(l) <= l + 9 + 63,
{
    vstd::arithmetic::div_mod::lemma_fundamental_div_mod(l as int + 9 + 63, 64);
}

/// The padded message length is 64 times the block count, which is the
/// ceiling of (l + 9) / 64 blocks.
pub proof fn lemma_padded_len(b: Seq<u8>)
    requires
        b.len() <= max_len(),
    ensures
        padded(b).len() == padded_len(b.len()),
        padded(b).len() == 64 * ((b.len() + 9 + 63) / 64),
        padded(b).len() % 64 == 0,
        padded(b).len() == 64 * block_count(b.len()),
{
    lemma_padded_len_lower(b.len());
    let q = block_count(b.len()) as int;
    assert((64 * q) % 64 == 0) by (nonlinear_arith);
}

} // verus!

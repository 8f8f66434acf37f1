//! PACKED-128 back-end: the message schedule is produced four words at a
//! time on 128-bit lane groups, while the round function stays scalar over
//! the four lanes of each vector.
//!
//! Three vectorized recurrences produce the schedule: the two-step fold of
//! stride one (with the intra-vector splice of the just-computed word), and
//! the feedback-free forms of stride two and stride four obtained by
//! iterating the defining recurrence.

use vstd::prelude::*;

use crate::lemmas::{
    lemma_fold_lane, lemma_rotl_xor4, lemma_round_order, lemma_w_stride2, lemma_w_stride4,
    lemma_xor_rotl1_zero,
};
use crate::model::{
    block_words, compress, f_round, k_round, rotl, rounds, w, word_be,
};
use crate::scalar::f_value;
use crate::words::{add32, load_word_be, rotl_u32};

verus! {

/// Four 32-bit lanes of a 128-bit register, in logical ascending order.
#[derive(Clone, Copy, Debug, PartialEq, Eq, Structural)]
pub struct U32x4 {
    pub l0: u32,
    pub l1: u32,
    pub l2: u32,
    pub l3: u32,
}

/// The five-word state carried as a packed ABCD vector plus a scalar E.
pub open spec fn state_of(v: U32x4, e: u32) -> Seq<u32> {
    seq![v.l0, v.l1, v.l2, v.l3, e]
}

/// The vector holds the four consecutive schedule words starting at W_t.
pub open spec fn holds_w(v: U32x4, m: Seq<u32>, t: int) -> bool {
    &&& v.l0 == w(m, t)
    &&& v.l1 == w(m, t + 1)
    &&& v.l2 == w(m, t + 2)
    &&& v.l3 == w(m, t + 3)
}

/// Lane-wise xor.
pub(crate) fn vxor(a: U32x4, b: U32x4) -> (r: U32x4)
    ensures
        r.l0 == a.l0 ^ b.l0,
        r.l1 == a.l1 ^ b.l1,
        r.l2 == a.l2 ^ b.l2,
        r.l3 == a.l3 ^ b.l3,
{
    U32x4 { l0: a.l0 ^ b.l0, l1: a.l1 ^ b.l1, l2: a.l2 ^ b.l2, l3: a.l3 ^ b.l3 }
}

/// Lane-wise left rotation by `n` bits.
fn vrotl(v: U32x4, n: u32) -> (r: U32x4)
    requires
        0 < n < 32,
    ensures
        r.l0 == rotl(v.l0, n),
        r.l1 == rotl(v.l1, n),
        r.l2 == rotl(v.l2, n),
        r.l3 == rotl(v.l3, n),
{
    U32x4 {
        l0: rotl_u32(v.l0, n),
        l1: rotl_u32(v.l1, n),
        l2: rotl_u32(v.l2, n),
        l3: rotl_u32(v.l3, n),
    }
}

/// The four lanes of a register stored to memory, in order.
pub fn iterate(register: U32x4) -> (memory: [u32; 4])
    ensures
        memory@ == seq![register.l0, register.l1, register.l2, register.l3],
{
    let mut memory = [0u32; 4];
    memory[0] = register.l0;
    memory[1] = register.l1;
    memory[2] = register.l2;
    memory[3] = register.l3;
    proof {
        assert(memory@ =~= seq![register.l0, register.l1, register.l2, register.l3]);
    }
    memory
}

/// Splice of two adjacent vectors at the eight-byte boundary: the upper half
/// of `a` followed by the lower half of `b`.
pub(crate) fn half_and_half(a: U32x4, b: U32x4) -> (r: U32x4)
    ensures
        r.l0 == a.l2,
        r.l1 == a.l3,
        r.l2 == b.l0,
        r.l3 == b.l1,
{
    U32x4 { l0: a.l2, l1: a.l3, l2: b.l0, l3: b.l1 }
}

/// Loads the sixteen message words of a block as four vectors, each lane one
/// big-endian message word in native integer layout (the indexing performs
/// the byte swap).
pub(crate) fn schedule_v0(bytes: &[u8]) -> (r: [U32x4; 4])
    requires
        bytes@.len() == 64,
    ensures
        holds_w(r@[0], block_words(bytes@), 0),
        holds_w(r@[1], block_words(bytes@), 4),
        holds_w(r@[2], block_words(bytes@), 8),
        holds_w(r@[3], block_words(bytes@), 12),
{
    let ghost m = block_words(bytes@);
    let mut r = [U32x4 { l0: 0, l1: 0, l2: 0, l3: 0 }; 4];
    let mut j: usize = 0;
    while j < 4
        invariant
            j <= 4,
            bytes@.len() == 64,
            m == block_words(bytes@),
            forall|i: int| 0 <= i < j ==> holds_w(r@[i], m, 4 * i),
        decreases 4 - j,
    {
        let v = U32x4 {
            l0: load_word_be(bytes, 16 * j),
            l1: load_word_be(bytes, 16 * j + 4),
            l2: load_word_be(bytes, 16 * j + 8),
            l3: load_word_be(bytes, 16 * j + 12),
        };
        r[j] = v;
        proof {
            assert(m[4 * j as int] == word_be(
                bytes@[16 * j as int],
                bytes@[16 * j as int + 1],
                bytes@[16 * j as int + 2],
                bytes@[16 * j as int + 3],
            ));
            assert(m[4 * j as int + 1] == word_be(
                bytes@[16 * j as int + 4],
                bytes@[16 * j as int + 5],
                bytes@[16 * j as int + 6],
                bytes@[16 * j as int + 7],
            ));
            assert(m[4 * j as int + 2] == word_be(
                bytes@[16 * j as int + 8],
                bytes@[16 * j as int + 9],
                bytes@[16 * j as int + 10],
                bytes@[16 * j as int + 11],
            ));
            assert(m[4 * j as int + 3] == word_be(
                bytes@[16 * j as int + 12],
                bytes@[16 * j as int + 13],
                bytes@[16 * j as int + 14],
                bytes@[16 * j as int + 15],
            ));
            assert(holds_w(v, m, 4 * j as int));
        }
        j += 1;
    }
    r
}

/// Produces W_t .. W_{t+3} for t in [16, 28]: the two-step fold.  Three
/// lanes combine the four xor contributions and rotate by one; the fourth
/// needs the just-computed W_t, which is spliced into the top position,
/// rotated, and xored in.
pub(crate) fn schedule_v1(
    w0_3: U32x4,
    w4_7: U32x4,
    w8_11: U32x4,
    w12_15: U32x4,
    Ghost(m): Ghost<Seq<u32>>,
    Ghost(t): Ghost<int>,
) -> (r: U32x4)
    requires
        m.len() == 16,
        16 <= t <= 76,
        holds_w(w0_3, m, t - 16),
        holds_w(w4_7, m, t - 12),
        holds_w(w8_11, m, t - 8),
        holds_w(w12_15, m, t - 4),
    ensures
        holds_w(r, m, t),
{
    let w13_15 = U32x4 { l0: w12_15.l1, l1: w12_15.l2, l2: w12_15.l3, l3: 0 };
    let w2_5 = half_and_half(w0_3, w4_7);
    let sum = vxor(vxor(w13_15, w8_11), vxor(w2_5, w0_3));
    let w16_18 = vrotl(sum, 1);
    let w16 = U32x4 { l0: 0, l1: 0, l2: 0, l3: w16_18.l0 };
    let w16rol1 = vrotl(w16, 1);
    let w16_19 = vxor(w16_18, w16rol1);
    proof {
        lemma_rotl_xor4(w(m, t - 3), w(m, t - 8), w(m, t - 14), w(m, t - 16), 1);
        lemma_rotl_xor4(w(m, t - 2), w(m, t - 7), w(m, t - 13), w(m, t - 15), 1);
        lemma_rotl_xor4(w(m, t - 1), w(m, t - 6), w(m, t - 12), w(m, t - 14), 1);
        lemma_xor_rotl1_zero(w16_18.l0);
        lemma_xor_rotl1_zero(w16_18.l1);
        lemma_xor_rotl1_zero(w16_18.l2);
        assert(w(m, t) == rotl(((w(m, t - 3) ^ w(m, t - 8)) ^ w(m, t - 14)) ^ w(m, t - 16), 1));
        assert(w(m, t + 1) == rotl(
            ((w(m, t - 2) ^ w(m, t - 7)) ^ w(m, t - 13)) ^ w(m, t - 15),
            1,
        ));
        assert(w(m, t + 2) == rotl(
            ((w(m, t - 1) ^ w(m, t - 6)) ^ w(m, t - 12)) ^ w(m, t - 14),
            1,
        ));
        lemma_fold_lane(w(m, t), w(m, t - 5), w(m, t - 11), w(m, t - 13));
        assert(w(m, t + 3) == rotl(((w(m, t) ^ w(m, t - 5)) ^ w(m, t - 11)) ^ w(m, t - 13), 1));
    }
    w16_19
}

/// Produces W_t .. W_{t+3} for t in [32, 60] with the stride-two form
/// W_t = rotl2(W_{t-6} ^ W_{t-16} ^ W_{t-28} ^ W_{t-32}): all four sources
/// live in strictly earlier vectors, so one xor-then-rotate suffices.
pub(crate) fn schedule_v2(
    w0_3: U32x4,
    w4_7: U32x4,
    w16_19: U32x4,
    w24_27: U32x4,
    w28_31: U32x4,
    Ghost(m): Ghost<Seq<u32>>,
    Ghost(t): Ghost<int>,
) -> (r: U32x4)
    requires
        m.len() == 16,
        32 <= t <= 76,
        holds_w(w0_3, m, t - 32),
        holds_w(w4_7, m, t - 28),
        holds_w(w16_19, m, t - 16),
        holds_w(w24_27, m, t - 8),
        holds_w(w28_31, m, t - 4),
    ensures
        holds_w(r, m, t),
{
    let w26_29 = half_and_half(w24_27, w28_31);
    let sum = vxor(vxor(w26_29, w16_19), vxor(w4_7, w0_3));
    let w32_35 = vrotl(sum, 2);
    proof {
        lemma_w_stride2(m, t);
        lemma_w_stride2(m, t + 1);
        lemma_w_stride2(m, t + 2);
        lemma_w_stride2(m, t + 3);
        lemma_rotl_xor4(w(m, t - 6), w(m, t - 16), w(m, t - 28), w(m, t - 32), 2);
        lemma_rotl_xor4(w(m, t - 5), w(m, t - 15), w(m, t - 27), w(m, t - 31), 2);
        lemma_rotl_xor4(w(m, t - 4), w(m, t - 14), w(m, t - 26), w(m, t - 30), 2);
        lemma_rotl_xor4(w(m, t - 3), w(m, t - 13), w(m, t - 25), w(m, t - 29), 2);
    }
    w32_35
}

/// Produces W_t .. W_{t+3} for t in [64, 76] with the stride-four form
/// W_t = rotl4(W_{t-12} ^ W_{t-32} ^ W_{t-56} ^ W_{t-64}): every source is
/// aligned to a vector boundary, so no splicing is needed.
pub(crate) fn schedule_v3(
    w0_3: U32x4,
    w8_11: U32x4,
    w32_35: U32x4,
    w52_55: U32x4,
    Ghost(m): Ghost<Seq<u32>>,
    Ghost(t): Ghost<int>,
) -> (r: U32x4)
    requires
        m.len() == 16,
        64 <= t <= 76,
        holds_w(w0_3, m, t - 64),
        holds_w(w8_11, m, t - 56),
        holds_w(w32_35, m, t - 32),
        holds_w(w52_55, m, t - 12),
    ensures
        holds_w(r, m, t),
{
    let sum = vxor(vxor(w52_55, w32_35), vxor(w8_11, w0_3));
    let w64_67 = vrotl(sum, 4);
    proof {
        lemma_w_stride4(m, t);
        lemma_w_stride4(m, t + 1);
        lemma_w_stride4(m, t + 2);
        lemma_w_stride4(m, t + 3);
        lemma_rotl_xor4(w(m, t - 12), w(m, t - 32), w(m, t - 56), w(m, t - 64), 4);
        lemma_rotl_xor4(w(m, t - 11), w(m, t - 31), w(m, t - 55), w(m, t - 63), 4);
        lemma_rotl_xor4(w(m, t - 10), w(m, t - 30), w(m, t - 54), w(m, t - 62), 4);
        lemma_rotl_xor4(w(m, t - 9), w(m, t - 29), w(m, t - 53), w(m, t - 61), 4);
    }
    w64_67
}

/// Four rounds of the SHA-1 mix: the vector's W + K addends are formed once,
/// then each lane feeds one scalar round, in ascending order.
fn compute(
    abcde: [u32; 5],
    wx4: U32x4,
    kx4: u32,
    t: usize,
    Ghost(h): Ghost<Seq<u32>>,
    Ghost(m): Ghost<Seq<u32>>,
) -> (r: [u32; 5])
    requires
        h.len() == 5,
        m.len() == 16,
        t % 4 == 0,
        t + 4 <= 80,
        kx4 == k_round(t as int),
        holds_w(wx4, m, t as int),
        (abcde@[0], abcde@[1], abcde@[2], abcde@[3], abcde@[4]) == rounds(h, m, t as int),
    ensures
        r@.len() == 5,
        (r@[0], r@[1], r@[2], r@[3], r@[4]) == rounds(h, m, t as int + 4),
{
    let wk0 = add32(wx4.l0, kx4);
    let wk1 = add32(wx4.l1, kx4);
    let wk2 = add32(wx4.l2, kx4);
    let wk3 = add32(wx4.l3, kx4);

    let mut a = abcde[0];
    let mut b = abcde[1];
    let mut c = abcde[2];
    let mut d = abcde[3];
    let mut e = abcde[4];

    proof {
        assert(k_round(t as int) == k_round(t as int + 1));
        assert(k_round(t as int) == k_round(t as int + 2));
        assert(k_round(t as int) == k_round(t as int + 3));
    }

    let f0 = f_value(t, b, c, d);
    let r5 = rotl_u32(a, 5);
    let tmp = add32(add32(add32(e, r5), f0), wk0);
    proof {
        lemma_round_order(rotl(a, 5), f_round(t as int, b, c, d), e, w(m, t as int), kx4);
    }
    e = d;
    d = c;
    c = rotl_u32(b, 30);
    b = a;
    a = tmp;
    proof {
        assert((a, b, c, d, e) == rounds(h, m, t as int + 1));
    }

    let f1 = f_value(t + 1, b, c, d);
    let r5 = rotl_u32(a, 5);
    let tmp = add32(add32(add32(e, r5), f1), wk1);
    proof {
        lemma_round_order(rotl(a, 5), f_round(t as int + 1, b, c, d), e, w(m, t as int + 1), kx4);
    }
    e = d;
    d = c;
    c = rotl_u32(b, 30);
    b = a;
    a = tmp;
    proof {
        assert((a, b, c, d, e) == rounds(h, m, t as int + 2));
    }

    let f2 = f_value(t + 2, b, c, d);
    let r5 = rotl_u32(a, 5);
    let tmp = add32(add32(add32(e, r5), f2), wk2);
    proof {
        lemma_round_order(rotl(a, 5), f_round(t as int + 2, b, c, d), e, w(m, t as int + 2), kx4);
    }
    e = d;
    d = c;
    c = rotl_u32(b, 30);
    b = a;
    a = tmp;
    proof {
        assert((a, b, c, d, e) == rounds(h, m, t as int + 3));
    }

    let f3 = f_value(t + 3, b, c, d);
    let r5 = rotl_u32(a, 5);
    let tmp = add32(add32(add32(e, r5), f3), wk3);
    proof {
        lemma_round_order(rotl(a, 5), f_round(t as int + 3, b, c, d), e, w(m, t as int + 3), kx4);
    }
    e = d;
    d = c;
    c = rotl_u32(b, 30);
    b = a;
    a = tmp;
    proof {
        assert((a, b, c, d, e) == rounds(h, m, t as int + 4));
    }

    let mut r = [0u32; 5];
    r[0] = a;
    r[1] = b;
    r[2] = c;
    r[3] = d;
    r[4] = e;
    r
}

/// Folds one 64-byte block into the running state: the twenty schedule
/// vectors come from the three vectorized recurrences, and each feeds four
/// rounds of the scalar mix.  Equals the reference compression.
pub fn hash_block(hash_value: [u32; 5], bytes: &[u8]) -> (r: [u32; 5])
    requires
        bytes@.len() == 64,
    ensures
        r@ == compress(hash_value@, block_words(bytes@)),
{
    let ghost m = block_words(bytes@);
    let ghost h = hash_value@;
    let v0 = schedule_v0(bytes);
    let w00_w03 = v0[0];
    let w04_w07 = v0[1];
    let w08_w11 = v0[2];
    let w12_w15 = v0[3];
    let w16_w19 = schedule_v1(w00_w03, w04_w07, w08_w11, w12_w15, Ghost(m), Ghost(16));
    let w20_w23 = schedule_v1(w04_w07, w08_w11, w12_w15, w16_w19, Ghost(m), Ghost(20));
    let w24_w27 = schedule_v1(w08_w11, w12_w15, w16_w19, w20_w23, Ghost(m), Ghost(24));
    let w28_w31 = schedule_v1(w12_w15, w16_w19, w20_w23, w24_w27, Ghost(m), Ghost(28));
    let w32_w35 = schedule_v2(w00_w03, w04_w07, w16_w19, w24_w27, w28_w31, Ghost(m), Ghost(32));
    let w36_w39 = schedule_v2(w04_w07, w08_w11, w20_w23, w28_w31, w32_w35, Ghost(m), Ghost(36));
    let w40_w43 = schedule_v2(w08_w11, w12_w15, w24_w27, w32_w35, w36_w39, Ghost(m), Ghost(40));
    let w44_w47 = schedule_v2(w12_w15, w16_w19, w28_w31, w36_w39, w40_w43, Ghost(m), Ghost(44));
    let w48_w51 = schedule_v2(w16_w19, w20_w23, w32_w35, w40_w43, w44_w47, Ghost(m), Ghost(48));
    let w52_w55 = schedule_v2(w20_w23, w24_w27, w36_w39, w44_w47, w48_w51, Ghost(m), Ghost(52));
    let w56_w59 = schedule_v2(w24_w27, w28_w31, w40_w43, w48_w51, w52_w55, Ghost(m), Ghost(56));
    let w60_w63 = schedule_v2(w28_w31, w32_w35, w44_w47, w52_w55, w56_w59, Ghost(m), Ghost(60));
    let w64_w67 = schedule_v3(w00_w03, w08_w11, w32_w35, w52_w55, Ghost(m), Ghost(64));
    let w68_w71 = schedule_v3(w04_w07, w12_w15, w36_w39, w56_w59, Ghost(m), Ghost(68));
    let w72_w75 = schedule_v3(w08_w11, w16_w19, w40_w43, w60_w63, Ghost(m), Ghost(72));
    let w76_w79 = schedule_v3(w12_w15, w20_w23, w44_w47, w64_w67, Ghost(m), Ghost(76));

    let abcde = hash_value;
    proof {
        assert((abcde@[0], abcde@[1], abcde@[2], abcde@[3], abcde@[4]) == rounds(h, m, 0));
    }
    // rounds 1-20
    let kx4 = 0x5A827999u32;
    let abcde = compute(abcde, w00_w03, kx4, 0, Ghost(h), Ghost(m));
    let abcde = compute(abcde, w04_w07, kx4, 4, Ghost(h), Ghost(m));
    let abcde = compute(abcde, w08_w11, kx4, 8, Ghost(h), Ghost(m));
    let abcde = compute(abcde, w12_w15, kx4, 12, Ghost(h), Ghost(m));
    let abcde = compute(abcde, w16_w19, kx4, 16, Ghost(h), Ghost(m));

    // rounds 21-40
    let kx4 = 0x6ED9EBA1u32;
    let abcde = compute(abcde, w20_w23, kx4, 20, Ghost(h), Ghost(m));
    let abcde = compute(abcde, w24_w27, kx4, 24, Ghost(h), Ghost(m));
    let abcde = compute(abcde, w28_w31, kx4, 28, Ghost(h), Ghost(m));
    let abcde = compute(abcde, w32_w35, kx4, 32, Ghost(h), Ghost(m));
    let abcde = compute(abcde, w36_w39, kx4, 36, Ghost(h), Ghost(m));

    // rounds 41-60
    let kx4 = 0x8F1BBCDCu32;
    let abcde = compute(abcde, w40_w43, kx4, 40, Ghost(h), Ghost(m));
    let abcde = compute(abcde, w44_w47, kx4, 44, Ghost(h), Ghost(m));
    let abcde = compute(abcde, w48_w51, kx4, 48, Ghost(h), Ghost(m));
    let abcde = compute(abcde, w52_w55, kx4, 52, Ghost(h), Ghost(m));
    let abcde = compute(abcde, w56_w59, kx4, 56, Ghost(h), Ghost(m));

    // rounds 61-80
    let kx4 = 0xCA62C1D6u32;
    let abcde = compute(abcde, w60_w63, kx4, 60, Ghost(h), Ghost(m));
    let abcde = compute(abcde, w64_w67, kx4, 64, Ghost(h), Ghost(m));
    let abcde = compute(abcde, w68_w71, kx4, 68, Ghost(h), Ghost(m));
    let abcde = compute(abcde, w72_w75, kx4, 72, Ghost(h), Ghost(m));
    let abcde = compute(abcde, w76_w79, kx4, 76, Ghost(h), Ghost(m));

    let mut out = [0u32; 5];
    out[0] = add32(hash_value[0], abcde[0]);
    out[1] = add32(hash_value[1], abcde[1]);
    out[2] = add32(hash_value[2], abcde[2]);
    out[3] = add32(hash_value[3], abcde[3]);
    out[4] = add32(hash_value[4], abcde[4]);
    proof {
        assert(out@ =~= compress(h, m));
    }
    out
}

} // verus!

//! The precomputed schedule: all twenty W + K vectors of a block formed up
//! front, grouped by round constant.  The vector recurrences are shared with
//! the packed back-end; this module exposes them in the load / splice naming
//! of the standalone schedule pipeline.

use vstd::prelude::*;

use crate::model::{block_words, k_round, w, wadd, word_be};
use crate::packed::{half_and_half, holds_w, schedule_v1, schedule_v2, schedule_v3, U32x4};
use crate::words::{add32, load_word_be};

verus! {

/// The vector holds W + K for the four consecutive rounds starting at `t`.
pub open spec fn holds_wk(v: U32x4, m: Seq<u32>, t: int) -> bool {
    &&& v.l0 == wadd(w(m, t), k_round(t))
    &&& v.l1 == wadd(w(m, t + 1), k_round(t + 1))
    &&& v.l2 == wadd(w(m, t + 2), k_round(t + 2))
    &&& v.l3 == wadd(w(m, t + 3), k_round(t + 3))
}

/// Adds the round constant into every lane.
pub(crate) fn vadd_k(v: U32x4, k: u32) -> (r: U32x4)
    ensures
        r.l0 == wadd(v.l0, k),
        r.l1 == wadd(v.l1, k),
        r.l2 == wadd(v.l2, k),
        r.l3 == wadd(v.l3, k),
{
    U32x4 { l0: add32(v.l0, k), l1: add32(v.l1, k), l2: add32(v.l2, k), l3: add32(v.l3, k) }
}

/// W_i = M_i for i < 16: one sixteen-byte slab loaded so each lane holds one
/// big-endian message word in native layout.
pub fn message_schedule_v1<const OFFSET: usize>(bytes: &[u8]) -> (r: U32x4)
    requires
        bytes@.len() == 64,
        OFFSET % 4 == 0,
        OFFSET + 16 <= 64,
    ensures
        holds_w(r, block_words(bytes@), OFFSET as int / 4),
{
    let ghost m = block_words(bytes@);
    let r = U32x4 {
        l0: load_word_be(bytes, OFFSET),
        l1: load_word_be(bytes, OFFSET + 4),
        l2: load_word_be(bytes, OFFSET + 8),
        l3: load_word_be(bytes, OFFSET + 12),
    };
    proof {
        let q = OFFSET as int / 4;
        assert(4 * q == OFFSET as int);
        assert(m[q] == word_be(
            bytes@[OFFSET as int],
            bytes@[OFFSET as int + 1],
            bytes@[OFFSET as int + 2],
            bytes@[OFFSET as int + 3],
        ));
        assert(m[q + 1] == word_be(
            bytes@[OFFSET as int + 4],
            bytes@[OFFSET as int + 5],
            bytes@[OFFSET as int + 6],
            bytes@[OFFSET as int + 7],
        ));
        assert(m[q + 2] == word_be(
            bytes@[OFFSET as int + 8],
            bytes@[OFFSET as int + 9],
            bytes@[OFFSET as int + 10],
            bytes@[OFFSET as int + 11],
        ));
        assert(m[q + 3] == word_be(
            bytes@[OFFSET as int + 12],
            bytes@[OFFSET as int + 13],
            bytes@[OFFSET as int + 14],
            bytes@[OFFSET as int + 15],
        ));
    }
    r
}

/// W_i = rotl1(W_{i-3} ^ W_{i-8} ^ W_{i-14} ^ W_{i-16}) for i >= 16: the
/// two-step fold over the four preceding vectors.
fn message_schedule_v2(
    minus_4: U32x4,
    minus_8: U32x4,
    minus_12: U32x4,
    minus_16: U32x4,
    Ghost(m): Ghost<Seq<u32>>,
    Ghost(t): Ghost<int>,
) -> (r: U32x4)
    requires
        m.len() == 16,
        16 <= t <= 76,
        holds_w(minus_4, m, t - 4),
        holds_w(minus_8, m, t - 8),
        holds_w(minus_12, m, t - 12),
        holds_w(minus_16, m, t - 16),
    ensures
        holds_w(r, m, t),
{
    schedule_v1(minus_16, minus_12, minus_8, minus_4, Ghost(m), Ghost(t))
}

/// W_i = rotl2(W_{i-6} ^ W_{i-16} ^ W_{i-28} ^ W_{i-32}) for i >= 32: one
/// xor-then-rotate, the W_{i-6} lanes spliced from two adjacent vectors.
fn message_schedule_v3(
    minus_4: U32x4,
    minus_8: U32x4,
    minus_16: U32x4,
    minus_28: U32x4,
    minus_32: U32x4,
    Ghost(m): Ghost<Seq<u32>>,
    Ghost(t): Ghost<int>,
) -> (r: U32x4)
    requires
        m.len() == 16,
        32 <= t <= 76,
        holds_w(minus_4, m, t - 4),
        holds_w(minus_8, m, t - 8),
        holds_w(minus_16, m, t - 16),
        holds_w(minus_28, m, t - 28),
        holds_w(minus_32, m, t - 32),
    ensures
        holds_w(r, m, t),
{
    schedule_v2(minus_32, minus_28, minus_16, minus_8, minus_4, Ghost(m), Ghost(t))
}

/// W_i = rotl4(W_{i-12} ^ W_{i-32} ^ W_{i-56} ^ W_{i-64}) for i >= 64: every
/// source aligned to a vector boundary, no splicing.
fn message_schedule_v4(
    minus_12: U32x4,
    minus_32: U32x4,
    minus_56: U32x4,
    minus_64: U32x4,
    Ghost(m): Ghost<Seq<u32>>,
    Ghost(t): Ghost<int>,
) -> (r: U32x4)
    requires
        m.len() == 16,
        64 <= t <= 76,
        holds_w(minus_12, m, t - 12),
        holds_w(minus_32, m, t - 32),
        holds_w(minus_56, m, t - 56),
        holds_w(minus_64, m, t - 64),
    ensures
        holds_w(r, m, t),
{
    schedule_v3(minus_64, minus_56, minus_32, minus_12, Ghost(m), Ghost(t))
}

/// Two adjacent vectors spliced at the eight-byte boundary: the upper half
/// of `former` followed by the lower half of `latter`.
fn connection_of(former: U32x4, latter: U32x4) -> (r: U32x4)
    ensures
        r.l0 == former.l2,
        r.l1 == former.l3,
        r.l2 == latter.l0,
        r.l3 == latter.l1,
{
    half_and_half(former, latter)
}

/// All twenty W + K vectors of a block, grouped five per round constant:
/// group g, vector q holds W + K for rounds 20g + 4q .. 20g + 4q + 3.
pub fn w_and_k(bytes: &[u8]) -> (r: [[U32x4; 5]; 4])
    requires
        bytes@.len() == 64,
    ensures
        holds_wk(r@[0]@[0], block_words(bytes@), 0),
        holds_wk(r@[0]@[1], block_words(bytes@), 4),
        holds_wk(r@[0]@[2], block_words(bytes@), 8),
        holds_wk(r@[0]@[3], block_words(bytes@), 12),
        holds_wk(r@[0]@[4], block_words(bytes@), 16),
        holds_wk(r@[1]@[0], block_words(bytes@), 20),
        holds_wk(r@[1]@[1], block_words(bytes@), 24),
        holds_wk(r@[1]@[2], block_words(bytes@), 28),
        holds_wk(r@[1]@[3], block_words(bytes@), 32),
        holds_wk(r@[1]@[4], block_words(bytes@), 36),
        holds_wk(r@[2]@[0], block_words(bytes@), 40),
        holds_wk(r@[2]@[1], block_words(bytes@), 44),
        holds_wk(r@[2]@[2], block_words(bytes@), 48),
        holds_wk(r@[2]@[3], block_words(bytes@), 52),
        holds_wk(r@[2]@[4], block_words(bytes@), 56),
        holds_wk(r@[3]@[0], block_words(bytes@), 60),
        holds_wk(r@[3]@[1], block_words(bytes@), 64),
        holds_wk(r@[3]@[2], block_words(bytes@), 68),
        holds_wk(r@[3]@[3], block_words(bytes@), 72),
        holds_wk(r@[3]@[4], block_words(bytes@), 76),
{
    let ghost m = block_words(bytes@);
    let wx4_01 = message_schedule_v1::<0>(bytes);
    let wx4_02 = message_schedule_v1::<16>(bytes);
    let wx4_03 = message_schedule_v1::<32>(bytes);
    let wx4_04 = message_schedule_v1::<48>(bytes);
    let wx4_05 = message_schedule_v2(wx4_04, wx4_03, wx4_02, wx4_01, Ghost(m), Ghost(16));
    let wx4_06 = message_schedule_v2(wx4_05, wx4_04, wx4_03, wx4_02, Ghost(m), Ghost(20));
    let wx4_07 = message_schedule_v2(wx4_06, wx4_05, wx4_04, wx4_03, Ghost(m), Ghost(24));
    let wx4_08 = message_schedule_v2(wx4_07, wx4_06, wx4_05, wx4_04, Ghost(m), Ghost(28));
    let wx4_09 = message_schedule_v3(wx4_08, wx4_07, wx4_05, wx4_02, wx4_01, Ghost(m), Ghost(32));
    let wx4_10 = message_schedule_v3(wx4_09, wx4_08, wx4_06, wx4_03, wx4_02, Ghost(m), Ghost(36));
    let wx4_11 = message_schedule_v3(wx4_10, wx4_09, wx4_07, wx4_04, wx4_03, Ghost(m), Ghost(40));
    let wx4_12 = message_schedule_v3(wx4_11, wx4_10, wx4_08, wx4_05, wx4_04, Ghost(m), Ghost(44));
    let wx4_13 = message_schedule_v3(wx4_12, wx4_11, wx4_09, wx4_06, wx4_05, Ghost(m), Ghost(48));
    let wx4_14 = message_schedule_v3(wx4_13, wx4_12, wx4_10, wx4_07, wx4_06, Ghost(m), Ghost(52));
    let wx4_15 = message_schedule_v3(wx4_14, wx4_13, wx4_11, wx4_08, wx4_07, Ghost(m), Ghost(56));
    let wx4_16 = message_schedule_v3(wx4_15, wx4_14, wx4_12, wx4_09, wx4_08, Ghost(m), Ghost(60));
    let wx4_17 = message_schedule_v4(wx4_14, wx4_09, wx4_03, wx4_01, Ghost(m), Ghost(64));
    let wx4_18 = message_schedule_v4(wx4_15, wx4_10, wx4_04, wx4_02, Ghost(m), Ghost(68));
    let wx4_19 = message_schedule_v4(wx4_16, wx4_11, wx4_05, wx4_03, Ghost(m), Ghost(72));
    let wx4_20 = message_schedule_v4(wx4_17, wx4_12, wx4_06, wx4_04, Ghost(m), Ghost(76));

    let k1x4 = 0x5A827999u32;
    let k2x4 = 0x6ED9EBA1u32;
    let k3x4 = 0x8F1BBCDCu32;
    let k4x4 = 0xCA62C1D6u32;

    let zero = U32x4 { l0: 0, l1: 0, l2: 0, l3: 0 };
    let mut row0 = [zero; 5];
    row0[0] = vadd_k(wx4_01, k1x4);
    row0[1] = vadd_k(wx4_02, k1x4);
    row0[2] = vadd_k(wx4_03, k1x4);
    row0[3] = vadd_k(wx4_04, k1x4);
    row0[4] = vadd_k(wx4_05, k1x4);
    let mut row1 = [zero; 5];
    row1[0] = vadd_k(wx4_06, k2x4);
    row1[1] = vadd_k(wx4_07, k2x4);
    row1[2] = vadd_k(wx4_08, k2x4);
    row1[3] = vadd_k(wx4_09, k2x4);
    row1[4] = vadd_k(wx4_10, k2x4);
    let mut row2 = [zero; 5];
    row2[0] = vadd_k(wx4_11, k3x4);
    row2[1] = vadd_k(wx4_12, k3x4);
    row2[2] = vadd_k(wx4_13, k3x4);
    row2[3] = vadd_k(wx4_14, k3x4);
    row2[4] = vadd_k(wx4_15, k3x4);
    let mut row3 = [zero; 5];
    row3[0] = vadd_k(wx4_16, k4x4);
    row3[1] = vadd_k(wx4_17, k4x4);
    row3[2] = vadd_k(wx4_18, k4x4);
    row3[3] = vadd_k(wx4_19, k4x4);
    row3[4] = vadd_k(wx4_20, k4x4);

    let mut out = [[zero; 5]; 4];
    out[0] = row0;
    out[1] = row1;
    out[2] = row2;
    out[3] = row3;
    out
}

} // verus!

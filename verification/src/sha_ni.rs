//! X86-SHA-NI back-end: the paired message-schedule helper and finalization,
//! the four-round mixing that folds E into the first schedule lane, and the
//! next-E helper, expressed as verified lane arithmetic.  State is a packed
//! (A, B, C, D) vector plus an "E + W" vector advanced between mixings.

use vstd::prelude::*;

use crate::lemmas::{lemma_msg2_top, lemma_round_order, lemma_round_order_ew, lemma_su_lane};
use crate::model::{block_words, compress, f_round, k_round, rotl, rounds, w, wadd};
use crate::packed::{holds_w, schedule_v0, state_of, vxor, U32x4};
use crate::scalar::{f_value, k_value};
use crate::words::{add32, rotl_u32};

verus! {

/// The working pair at round `t`: the ABCD vector holds the first four
/// working variables, and the second vector holds E folded into W_t followed
/// by the next three schedule words.
pub open spec fn abcdew_at(s: (U32x4, U32x4), h: Seq<u32>, m: Seq<u32>, t: int) -> bool {
    &&& s.0.l0 == rounds(h, m, t).0
    &&& s.0.l1 == rounds(h, m, t).1
    &&& s.0.l2 == rounds(h, m, t).2
    &&& s.0.l3 == rounds(h, m, t).3
    &&& s.1.l0 == wadd(rounds(h, m, t).4, w(m, t))
    &&& s.1.l1 == w(m, t + 1)
    &&& s.1.l2 == w(m, t + 2)
    &&& s.1.l3 == w(m, t + 3)
}

/// Message-schedule helper: each lane xored with the word two lanes on.
fn sha1msg1(a: U32x4, b: U32x4) -> (r: U32x4)
    ensures
        r.l0 == a.l2 ^ a.l0,
        r.l1 == a.l3 ^ a.l1,
        r.l2 == b.l0 ^ a.l2,
        r.l3 == a.l3 ^ b.l1,
{
    U32x4 { l0: a.l2 ^ a.l0, l1: a.l3 ^ a.l1, l2: b.l0 ^ a.l2, l3: a.l3 ^ b.l1 }
}

/// Message-schedule finalization: xors in the three newest words, rotates
/// once, and folds the just-computed first word into the top lane.
fn sha1msg2(a: U32x4, b: U32x4) -> (r: U32x4)
    ensures
        r.l0 == rotl(a.l0 ^ b.l1, 1),
        r.l1 == rotl(a.l1 ^ b.l2, 1),
        r.l2 == rotl(a.l2 ^ b.l3, 1),
        r.l3 == rotl(a.l3 ^ rotl(a.l0 ^ b.l1, 1), 1),
{
    let w16 = rotl_u32(a.l0 ^ b.l1, 1);
    let w17 = rotl_u32(a.l1 ^ b.l2, 1);
    let w18 = rotl_u32(a.l2 ^ b.l3, 1);
    let w19 = rotl_u32(a.l3 ^ w16, 1);
    U32x4 { l0: w16, l1: w17, l2: w18, l3: w19 }
}

/// The helper and finalization composed in the canonical three-input
/// pattern: W_t .. W_{t+3} from the four preceding vectors.
fn schedule_msg(
    w0_3: U32x4,
    w4_7: U32x4,
    w8_11: U32x4,
    w12_15: U32x4,
    Ghost(m): Ghost<Seq<u32>>,
    Ghost(t): Ghost<int>,
) -> (r: U32x4)
    requires
        m.len() == 16,
        16 <= t <= 76,
        holds_w(w0_3, m, t - 16),
        holds_w(w4_7, m, t - 12),
        holds_w(w8_11, m, t - 8),
        holds_w(w12_15, m, t - 4),
    ensures
        holds_w(r, m, t),
{
    let x = vxor(sha1msg1(w0_3, w4_7), w8_11);
    let r = sha1msg2(x, w12_15);
    proof {
        lemma_su_lane(w(m, t - 3), w(m, t - 8), w(m, t - 14), w(m, t - 16));
        lemma_su_lane(w(m, t - 2), w(m, t - 7), w(m, t - 13), w(m, t - 15));
        lemma_su_lane(w(m, t - 1), w(m, t - 6), w(m, t - 12), w(m, t - 14));
        assert(w(m, t) == rotl(((w(m, t - 3) ^ w(m, t - 8)) ^ w(m, t - 14)) ^ w(m, t - 16), 1));
        assert(w(m, t + 1) == rotl(
            ((w(m, t - 2) ^ w(m, t - 7)) ^ w(m, t - 13)) ^ w(m, t - 15),
            1,
        ));
        assert(w(m, t + 2) == rotl(
            ((w(m, t - 1) ^ w(m, t - 6)) ^ w(m, t - 12)) ^ w(m, t - 14),
            1,
        ));
        assert(r.l0 == w(m, t));
        lemma_msg2_top(w(m, t), w(m, t - 5), w(m, t - 11), w(m, t - 13));
        assert(w(m, t + 3) == rotl(((w(m, t) ^ w(m, t - 5)) ^ w(m, t - 11)) ^ w(m, t - 13), 1));
    }
    r
}

/// Four rounds of the mix.  The round function and constant follow the round
/// index; E enters the first round through the first lane of `ew`, and the
/// remaining rounds draw it from the rotating working variables.
fn sha1rnds4(
    abcd: U32x4,
    ew: U32x4,
    t: usize,
    Ghost(h): Ghost<Seq<u32>>,
    Ghost(m): Ghost<Seq<u32>>,
) -> (r: U32x4)
    requires
        h.len() == 5,
        m.len() == 16,
        t % 4 == 0,
        t + 4 <= 80,
        abcd.l0 == rounds(h, m, t as int).0,
        abcd.l1 == rounds(h, m, t as int).1,
        abcd.l2 == rounds(h, m, t as int).2,
        abcd.l3 == rounds(h, m, t as int).3,
        ew.l0 == wadd(rounds(h, m, t as int).4, w(m, t as int)),
        ew.l1 == w(m, t as int + 1),
        ew.l2 == w(m, t as int + 2),
        ew.l3 == w(m, t as int + 3),
    ensures
        r.l0 == rounds(h, m, t as int + 4).0,
        r.l1 == rounds(h, m, t as int + 4).1,
        r.l2 == rounds(h, m, t as int + 4).2,
        r.l3 == rounds(h, m, t as int + 4).3,
        rounds(h, m, t as int + 4).4 == rotl(abcd.l0, 30),
{
    let k = k_value(t);
    let mut a = abcd.l0;
    let mut b = abcd.l1;
    let mut c = abcd.l2;
    let mut d = abcd.l3;

    let f0 = f_value(t, b, c, d);
    let r5 = rotl_u32(a, 5);
    let s = add32(r5, f0);
    let tmp = add32(add32(s, ew.l0), k);
    proof {
        lemma_round_order_ew(
            wadd(rotl(a, 5), f_round(t as int, b, c, d)),
            rounds(h, m, t as int).4,
            w(m, t as int),
            k_round(t as int),
        );
        assert(k_round(t as int + 1) == k_round(t as int));
        assert(k_round(t as int + 2) == k_round(t as int));
        assert(k_round(t as int + 3) == k_round(t as int));
    }
    let mut e = d;
    d = c;
    c = rotl_u32(b, 30);
    b = a;
    a = tmp;
    proof {
        assert((a, b, c, d, e) == rounds(h, m, t as int + 1));
    }

    let f1 = f_value(t + 1, b, c, d);
    let r5 = rotl_u32(a, 5);
    let tmp = add32(add32(add32(e, r5), f1), add32(ew.l1, k));
    proof {
        lemma_round_order(
            rotl(a, 5),
            f_round(t as int + 1, b, c, d),
            e,
            w(m, t as int + 1),
            k_round(t as int + 1),
        );
    }
    e = d;
    d = c;
    c = rotl_u32(b, 30);
    b = a;
    a = tmp;
    proof {
        assert((a, b, c, d, e) == rounds(h, m, t as int + 2));
    }

    let f2 = f_value(t + 2, b, c, d);
    let r5 = rotl_u32(a, 5);
    let tmp = add32(add32(add32(e, r5), f2), add32(ew.l2, k));
    proof {
        lemma_round_order(
            rotl(a, 5),
            f_round(t as int + 2, b, c, d),
            e,
            w(m, t as int + 2),
            k_round(t as int + 2),
        );
    }
    e = d;
    d = c;
    c = rotl_u32(b, 30);
    b = a;
    a = tmp;
    proof {
        assert((a, b, c, d, e) == rounds(h, m, t as int + 3));
    }

    let f3 = f_value(t + 3, b, c, d);
    let r5 = rotl_u32(a, 5);
    let tmp = add32(add32(add32(e, r5), f3), add32(ew.l3, k));
    proof {
        lemma_round_order(
            rotl(a, 5),
            f_round(t as int + 3, b, c, d),
            e,
            w(m, t as int + 3),
            k_round(t as int + 3),
        );
    }
    d = c;
    c = rotl_u32(b, 30);
    b = a;
    a = tmp;
    proof {
        assert((a, b, c, d, rotl(abcd.l0, 30)) == rounds(h, m, t as int + 4));
    }
    U32x4 { l0: a, l1: b, l2: c, l3: d }
}

/// The next "E + W" vector: the old A rotated by 30 (the E of four rounds
/// later) added into the first lane of the next schedule vector.
fn sha1nexte(abcd: U32x4, wx4: U32x4) -> (r: U32x4)
    ensures
        r.l0 == wadd(rotl(abcd.l0, 30), wx4.l0),
        r.l1 == wx4.l1,
        r.l2 == wx4.l2,
        r.l3 == wx4.l3,
{
    U32x4 { l0: add32(rotl_u32(abcd.l0, 30), wx4.l0), l1: wx4.l1, l2: wx4.l2, l3: wx4.l3 }
}

/// One four-round step: mix the current pair, then advance the "E + W"
/// vector from the pre-mix A and the next schedule vector.
fn compute(
    abcdew: (U32x4, U32x4),
    wx4: U32x4,
    t: usize,
    Ghost(h): Ghost<Seq<u32>>,
    Ghost(m): Ghost<Seq<u32>>,
) -> (r: (U32x4, U32x4))
    requires
        h.len() == 5,
        m.len() == 16,
        t % 4 == 0,
        t + 8 <= 80,
        abcdew_at(abcdew, h, m, t as int),
        holds_w(wx4, m, t as int + 4),
    ensures
        abcdew_at(r, h, m, t as int + 4),
{
    let (abcd, ew) = abcdew;
    let tmp = sha1rnds4(abcd, ew, t, Ghost(h), Ghost(m));
    let ew = sha1nexte(abcd, wx4);
    let abcd = tmp;
    (abcd, ew)
}

/// Folds one block into the (ABCD, E) state: sixteen schedule vectors from
/// the paired helpers, twenty four-round mixings, and the running state
/// added back in, with the final E + H4 fold done by the next-E helper.
pub fn hash_block(hash_value: (U32x4, u32), bytes: &[u8]) -> (r: (U32x4, u32))
    requires
        bytes@.len() == 64,
    ensures
        state_of(r.0, r.1) == compress(state_of(hash_value.0, hash_value.1), block_words(bytes@)),
{
    let ghost m = block_words(bytes@);
    let ghost h = state_of(hash_value.0, hash_value.1);
    let v0 = schedule_v0(bytes);
    let w00_w03 = v0[0];
    let w04_w07 = v0[1];
    let w08_w11 = v0[2];
    let w12_w15 = v0[3];
    let w16_w19 = schedule_msg(w00_w03, w04_w07, w08_w11, w12_w15, Ghost(m), Ghost(16));
    let w20_w23 = schedule_msg(w04_w07, w08_w11, w12_w15, w16_w19, Ghost(m), Ghost(20));
    let w24_w27 = schedule_msg(w08_w11, w12_w15, w16_w19, w20_w23, Ghost(m), Ghost(24));
    let w28_w31 = schedule_msg(w12_w15, w16_w19, w20_w23, w24_w27, Ghost(m), Ghost(28));
    let w32_w35 = schedule_msg(w16_w19, w20_w23, w24_w27, w28_w31, Ghost(m), Ghost(32));
    let w36_w39 = schedule_msg(w20_w23, w24_w27, w28_w31, w32_w35, Ghost(m), Ghost(36));
    let w40_w43 = schedule_msg(w24_w27, w28_w31, w32_w35, w36_w39, Ghost(m), Ghost(40));
    let w44_w47 = schedule_msg(w28_w31, w32_w35, w36_w39, w40_w43, Ghost(m), Ghost(44));
    let w48_w51 = schedule_msg(w32_w35, w36_w39, w40_w43, w44_w47, Ghost(m), Ghost(48));
    let w52_w55 = schedule_msg(w36_w39, w40_w43, w44_w47, w48_w51, Ghost(m), Ghost(52));
    let w56_w59 = schedule_msg(w40_w43, w44_w47, w48_w51, w52_w55, Ghost(m), Ghost(56));
    let w60_w63 = schedule_msg(w44_w47, w48_w51, w52_w55, w56_w59, Ghost(m), Ghost(60));
    let w64_w67 = schedule_msg(w48_w51, w52_w55, w56_w59, w60_w63, Ghost(m), Ghost(64));
    let w68_w71 = schedule_msg(w52_w55, w56_w59, w60_w63, w64_w67, Ghost(m), Ghost(68));
    let w72_w75 = schedule_msg(w56_w59, w60_w63, w64_w67, w68_w71, Ghost(m), Ghost(72));
    let w76_w79 = schedule_msg(w60_w63, w64_w67, w68_w71, w72_w75, Ghost(m), Ghost(76));

    let (abcd, e) = hash_value;
    let abcdew = (
        abcd,
        U32x4 { l0: add32(e, w00_w03.l0), l1: w00_w03.l1, l2: w00_w03.l2, l3: w00_w03.l3 },
    );
    proof {
        assert(rounds(h, m, 0) == (h[0], h[1], h[2], h[3], h[4]));
        assert(abcdew_at(abcdew, h, m, 0));
    }
    // rounds 1-20
    let abcdew = compute(abcdew, w04_w07, 0, Ghost(h), Ghost(m));
    let abcdew = compute(abcdew, w08_w11, 4, Ghost(h), Ghost(m));
    let abcdew = compute(abcdew, w12_w15, 8, Ghost(h), Ghost(m));
    let abcdew = compute(abcdew, w16_w19, 12, Ghost(h), Ghost(m));
    let abcdew = compute(abcdew, w20_w23, 16, Ghost(h), Ghost(m));

    // rounds 21-40
    let abcdew = compute(abcdew, w24_w27, 20, Ghost(h), Ghost(m));
    let abcdew = compute(abcdew, w28_w31, 24, Ghost(h), Ghost(m));
    let abcdew = compute(abcdew, w32_w35, 28, Ghost(h), Ghost(m));
    let abcdew = compute(abcdew, w36_w39, 32, Ghost(h), Ghost(m));
    let abcdew = compute(abcdew, w40_w43, 36, Ghost(h), Ghost(m));

    // rounds 41-60
    let abcdew = compute(abcdew, w44_w47, 40, Ghost(h), Ghost(m));
    let abcdew = compute(abcdew, w48_w51, 44, Ghost(h), Ghost(m));
    let abcdew = compute(abcdew, w52_w55, 48, Ghost(h), Ghost(m));
    let abcdew = compute(abcdew, w56_w59, 52, Ghost(h), Ghost(m));
    let abcdew = compute(abcdew, w60_w63, 56, Ghost(h), Ghost(m));

    // rounds 61-80
    let abcdew = compute(abcdew, w64_w67, 60, Ghost(h), Ghost(m));
    let abcdew = compute(abcdew, w68_w71, 64, Ghost(h), Ghost(m));
    let abcdew = compute(abcdew, w72_w75, 68, Ghost(h), Ghost(m));
    let abcdew = compute(abcdew, w76_w79, 72, Ghost(h), Ghost(m));
    let (abcd_76, ew_76) = abcdew;
    let abcd_80 = sha1rnds4(abcd_76, ew_76, 76, Ghost(h), Ghost(m));
    let h4_vec = U32x4 { l0: hash_value.1, l1: 0, l2: 0, l3: 0 };
    let e_out = sha1nexte(abcd_76, h4_vec);

    let out = U32x4 {
        l0: add32(abcd_80.l0, hash_value.0.l0),
        l1: add32(abcd_80.l1, hash_value.0.l1),
        l2: add32(abcd_80.l2, hash_value.0.l2),
        l3: add32(abcd_80.l3, hash_value.0.l3),
    };
    proof {
        assert(state_of(out, e_out.l0) =~= compress(h, m));
    }
    (out, e_out.l0)
}

} // verus!

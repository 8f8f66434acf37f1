//! ARM-CRYPTO back-end: the fused four-round mixing and the paired schedule
//! helpers of the 64-bit ARM SHA-1 instructions, expressed as verified lane
//! arithmetic.  State is a packed (A, B, C, D) vector plus a scalar E; the
//! next E is captured from A before each mixing.

use vstd::prelude::*;

use crate::lemmas::{lemma_round_order, lemma_su_lane, lemma_su_top};
use crate::model::{block_words, compress, f_round, k_round, rotl, rounds, w, wadd};
use crate::packed::{holds_w, schedule_v0, state_of, U32x4};
use crate::scalar::f_value;
use crate::schedule::vadd_k;
use crate::words::{add32, rotl_u32};

verus! {

/// The fixed-rotation helper: the E of four rounds later is the current A
/// rotated left by 30.
fn sha1h(x: u32) -> (r: u32)
    ensures
        r == rotl(x, 30),
{
    rotl_u32(x, 30)
}

/// Four consecutive rounds over precomputed W + K lanes.  The new E (the old
/// A rotated by 30) is not returned: the caller captures it with `sha1h`
/// before the ABCD vector is replaced.
fn four_rounds(
    abcd: U32x4,
    e: u32,
    wk: U32x4,
    t: usize,
    Ghost(h): Ghost<Seq<u32>>,
    Ghost(m): Ghost<Seq<u32>>,
) -> (r: U32x4)
    requires
        h.len() == 5,
        m.len() == 16,
        t + 4 <= 80,
        (abcd.l0, abcd.l1, abcd.l2, abcd.l3, e) == rounds(h, m, t as int),
        wk.l0 == wadd(w(m, t as int), k_round(t as int)),
        wk.l1 == wadd(w(m, t as int + 1), k_round(t as int + 1)),
        wk.l2 == wadd(w(m, t as int + 2), k_round(t as int + 2)),
        wk.l3 == wadd(w(m, t as int + 3), k_round(t as int + 3)),
    ensures
        (r.l0, r.l1, r.l2, r.l3, rotl(abcd.l0, 30)) == rounds(h, m, t as int + 4),
{
    let mut a = abcd.l0;
    let mut b = abcd.l1;
    let mut c = abcd.l2;
    let mut d = abcd.l3;
    let mut e = e;

    let f0 = f_value(t, b, c, d);
    let r5 = rotl_u32(a, 5);
    let tmp = add32(add32(add32(e, r5), f0), wk.l0);
    proof {
        lemma_round_order(rotl(a, 5), f_round(t as int, b, c, d), e, w(m, t as int), k_round(t as int));
    }
    e = d;
    d = c;
    c = rotl_u32(b, 30);
    b = a;
    a = tmp;
    proof {
        assert((a, b, c, d, e) == rounds(h, m, t as int + 1));
    }

    let f1 = f_value(t + 1, b, c, d);
    let r5 = rotl_u32(a, 5);
    let tmp = add32(add32(add32(e, r5), f1), wk.l1);
    proof {
        lemma_round_order(
            rotl(a, 5),
            f_round(t as int + 1, b, c, d),
            e,
            w(m, t as int + 1),
            k_round(t as int + 1),
        );
    }
    e = d;
    d = c;
    c = rotl_u32(b, 30);
    b = a;
    a = tmp;
    proof {
        assert((a, b, c, d, e) == rounds(h, m, t as int + 2));
    }

    let f2 = f_value(t + 2, b, c, d);
    let r5 = rotl_u32(a, 5);
    let tmp = add32(add32(add32(e, r5), f2), wk.l2);
    proof {
        lemma_round_order(
            rotl(a, 5),
            f_round(t as int + 2, b, c, d),
            e,
            w(m, t as int + 2),
            k_round(t as int + 2),
        );
    }
    e = d;
    d = c;
    c = rotl_u32(b, 30);
    b = a;
    a = tmp;
    proof {
        assert((a, b, c, d, e) == rounds(h, m, t as int + 3));
    }

    let f3 = f_value(t + 3, b, c, d);
    let r5 = rotl_u32(a, 5);
    let tmp = add32(add32(add32(e, r5), f3), wk.l3);
    proof {
        lemma_round_order(
            rotl(a, 5),
            f_round(t as int + 3, b, c, d),
            e,
            w(m, t as int + 3),
            k_round(t as int + 3),
        );
    }
    d = c;
    c = rotl_u32(b, 30);
    b = a;
    a = tmp;
    proof {
        assert((a, b, c, d, rotl(abcd.l0, 30)) == rounds(h, m, t as int + 4));
    }
    U32x4 { l0: a, l1: b, l2: c, l3: d }
}

/// Four CHOICE rounds (indices below 20) over precomputed W + K lanes.
fn sha1c4(
    abcd: U32x4,
    e: u32,
    wk: U32x4,
    t: usize,
    Ghost(h): Ghost<Seq<u32>>,
    Ghost(m): Ghost<Seq<u32>>,
) -> (r: U32x4)
    requires
        h.len() == 5,
        m.len() == 16,
        t + 4 <= 20,
        (abcd.l0, abcd.l1, abcd.l2, abcd.l3, e) == rounds(h, m, t as int),
        wk.l0 == wadd(w(m, t as int), k_round(t as int)),
        wk.l1 == wadd(w(m, t as int + 1), k_round(t as int + 1)),
        wk.l2 == wadd(w(m, t as int + 2), k_round(t as int + 2)),
        wk.l3 == wadd(w(m, t as int + 3), k_round(t as int + 3)),
    ensures
        (r.l0, r.l1, r.l2, r.l3, rotl(abcd.l0, 30)) == rounds(h, m, t as int + 4),
{
    four_rounds(abcd, e, wk, t, Ghost(h), Ghost(m))
}

/// Four PARITY rounds (indices in [20, 40) or [60, 80)) over W + K lanes.
fn sha1p4(
    abcd: U32x4,
    e: u32,
    wk: U32x4,
    t: usize,
    Ghost(h): Ghost<Seq<u32>>,
    Ghost(m): Ghost<Seq<u32>>,
) -> (r: U32x4)
    requires
        h.len() == 5,
        m.len() == 16,
        (20 <= t && t + 4 <= 40) || (60 <= t && t + 4 <= 80),
        (abcd.l0, abcd.l1, abcd.l2, abcd.l3, e) == rounds(h, m, t as int),
        wk.l0 == wadd(w(m, t as int), k_round(t as int)),
        wk.l1 == wadd(w(m, t as int + 1), k_round(t as int + 1)),
        wk.l2 == wadd(w(m, t as int + 2), k_round(t as int + 2)),
        wk.l3 == wadd(w(m, t as int + 3), k_round(t as int + 3)),
    ensures
        (r.l0, r.l1, r.l2, r.l3, rotl(abcd.l0, 30)) == rounds(h, m, t as int + 4),
{
    four_rounds(abcd, e, wk, t, Ghost(h), Ghost(m))
}

/// Four MAJORITY rounds (indices in [40, 60)) over W + K lanes.
fn sha1m4(
    abcd: U32x4,
    e: u32,
    wk: U32x4,
    t: usize,
    Ghost(h): Ghost<Seq<u32>>,
    Ghost(m): Ghost<Seq<u32>>,
) -> (r: U32x4)
    requires
        h.len() == 5,
        m.len() == 16,
        40 <= t && t + 4 <= 60,
        (abcd.l0, abcd.l1, abcd.l2, abcd.l3, e) == rounds(h, m, t as int),
        wk.l0 == wadd(w(m, t as int), k_round(t as int)),
        wk.l1 == wadd(w(m, t as int + 1), k_round(t as int + 1)),
        wk.l2 == wadd(w(m, t as int + 2), k_round(t as int + 2)),
        wk.l3 == wadd(w(m, t as int + 3), k_round(t as int + 3)),
    ensures
        (r.l0, r.l1, r.l2, r.l3, rotl(abcd.l0, 30)) == rounds(h, m, t as int + 4),
{
    four_rounds(abcd, e, wk, t, Ghost(h), Ghost(m))
}

/// Schedule part one: the splice of the two older vectors xored with the
/// oldest and with the third, three of the four contributions of each word.
fn sha1su0(a: U32x4, b: U32x4, c: U32x4) -> (r: U32x4)
    ensures
        r.l0 == (a.l2 ^ a.l0) ^ c.l0,
        r.l1 == (a.l3 ^ a.l1) ^ c.l1,
        r.l2 == (b.l0 ^ a.l2) ^ c.l2,
        r.l3 == (b.l1 ^ a.l3) ^ c.l3,
{
    U32x4 {
        l0: (a.l2 ^ a.l0) ^ c.l0,
        l1: (a.l3 ^ a.l1) ^ c.l1,
        l2: (b.l0 ^ a.l2) ^ c.l2,
        l3: (b.l1 ^ a.l3) ^ c.l3,
    }
}

/// Schedule part two: xors in the newest vector's words, rotates each lane
/// once, and folds the just-computed first word into the top lane.
fn sha1su1(tw: U32x4, d: U32x4) -> (r: U32x4)
    ensures
        r.l0 == rotl(tw.l0 ^ d.l1, 1),
        r.l1 == rotl(tw.l1 ^ d.l2, 1),
        r.l2 == rotl(tw.l2 ^ d.l3, 1),
        r.l3 == rotl(tw.l3 ^ 0, 1) ^ rotl(tw.l0 ^ d.l1, 2),
{
    let t0 = tw.l0 ^ d.l1;
    let t1 = tw.l1 ^ d.l2;
    let t2 = tw.l2 ^ d.l3;
    let t3 = tw.l3 ^ 0;
    U32x4 {
        l0: rotl_u32(t0, 1),
        l1: rotl_u32(t1, 1),
        l2: rotl_u32(t2, 1),
        l3: rotl_u32(t3, 1) ^ rotl_u32(t0, 2),
    }
}

/// The two schedule helpers composed: W_t .. W_{t+3} from the four
/// preceding vectors.
fn schedule_pair(
    w0_3: U32x4,
    w4_7: U32x4,
    w8_11: U32x4,
    w12_15: U32x4,
    Ghost(m): Ghost<Seq<u32>>,
    Ghost(t): Ghost<int>,
) -> (r: U32x4)
    requires
        m.len() == 16,
        16 <= t <= 76,
        holds_w(w0_3, m, t - 16),
        holds_w(w4_7, m, t - 12),
        holds_w(w8_11, m, t - 8),
        holds_w(w12_15, m, t - 4),
    ensures
        holds_w(r, m, t),
{
    let tw = sha1su0(w0_3, w4_7, w8_11);
    let r = sha1su1(tw, w12_15);
    proof {
        lemma_su_lane(w(m, t - 3), w(m, t - 8), w(m, t - 14), w(m, t - 16));
        lemma_su_lane(w(m, t - 2), w(m, t - 7), w(m, t - 13), w(m, t - 15));
        lemma_su_lane(w(m, t - 1), w(m, t - 6), w(m, t - 12), w(m, t - 14));
        assert(w(m, t) == rotl(((w(m, t - 3) ^ w(m, t - 8)) ^ w(m, t - 14)) ^ w(m, t - 16), 1));
        assert(w(m, t + 1) == rotl(
            ((w(m, t - 2) ^ w(m, t - 7)) ^ w(m, t - 13)) ^ w(m, t - 15),
            1,
        ));
        assert(w(m, t + 2) == rotl(
            ((w(m, t - 1) ^ w(m, t - 6)) ^ w(m, t - 12)) ^ w(m, t - 14),
            1,
        ));
        assert(r.l0 == w(m, t));
        lemma_su_top(tw.l0 ^ w12_15.l1, w(m, t - 5), w(m, t - 11), w(m, t - 13));
        assert(w(m, t + 3) == rotl(((w(m, t) ^ w(m, t - 5)) ^ w(m, t - 11)) ^ w(m, t - 13), 1));
    }
    r
}

/// Folds one block into the (ABCD, E) state with the fused mixing: CHOICE
/// for rounds 0-19, PARITY for 20-39 and 60-79, MAJORITY for 40-59.  Each
/// mixing consumes one W + K vector; the next E is captured from A first.
pub fn hash_block(state: (U32x4, u32), bytes: &[u8]) -> (r: (U32x4, u32))
    requires
        bytes@.len() == 64,
    ensures
        state_of(r.0, r.1) == compress(state_of(state.0, state.1), block_words(bytes@)),
{
    let ghost m = block_words(bytes@);
    let ghost h = state_of(state.0, state.1);
    let v0 = schedule_v0(bytes);
    let wx4_01 = v0[0];
    let wx4_02 = v0[1];
    let wx4_03 = v0[2];
    let wx4_04 = v0[3];

    let (abcd, e) = state;
    proof {
        assert((abcd.l0, abcd.l1, abcd.l2, abcd.l3, e) == rounds(h, m, 0));
    }

    let k1x4 = 0x5A827999u32;
    // rounds 1-4
    let tmp = sha1h(abcd.l0);
    let abcd = sha1c4(abcd, e, vadd_k(wx4_01, k1x4), 0, Ghost(h), Ghost(m));
    let e = tmp;
    // rounds 5-8
    let tmp = sha1h(abcd.l0);
    let abcd = sha1c4(abcd, e, vadd_k(wx4_02, k1x4), 4, Ghost(h), Ghost(m));
    let e = tmp;
    // rounds 9-12
    let tmp = sha1h(abcd.l0);
    let abcd = sha1c4(abcd, e, vadd_k(wx4_03, k1x4), 8, Ghost(h), Ghost(m));
    let e = tmp;
    // rounds 13-16
    let tmp = sha1h(abcd.l0);
    let abcd = sha1c4(abcd, e, vadd_k(wx4_04, k1x4), 12, Ghost(h), Ghost(m));
    let e = tmp;
    // rounds 17-20
    let wx4_05 = schedule_pair(wx4_01, wx4_02, wx4_03, wx4_04, Ghost(m), Ghost(16));
    let tmp = sha1h(abcd.l0);
    let abcd = sha1c4(abcd, e, vadd_k(wx4_05, k1x4), 16, Ghost(h), Ghost(m));
    let e = tmp;

    let k2x4 = 0x6ED9EBA1u32;
    // rounds 21-24
    let wx4_06 = schedule_pair(wx4_02, wx4_03, wx4_04, wx4_05, Ghost(m), Ghost(20));
    let tmp = sha1h(abcd.l0);
    let abcd = sha1p4(abcd, e, vadd_k(wx4_06, k2x4), 20, Ghost(h), Ghost(m));
    let e = tmp;
    // rounds 25-28
    let wx4_07 = schedule_pair(wx4_03, wx4_04, wx4_05, wx4_06, Ghost(m), Ghost(24));
    let tmp = sha1h(abcd.l0);
    let abcd = sha1p4(abcd, e, vadd_k(wx4_07, k2x4), 24, Ghost(h), Ghost(m));
    let e = tmp;
    // rounds 29-32
    let wx4_08 = schedule_pair(wx4_04, wx4_05, wx4_06, wx4_07, Ghost(m), Ghost(28));
    let tmp = sha1h(abcd.l0);
    let abcd = sha1p4(abcd, e, vadd_k(wx4_08, k2x4), 28, Ghost(h), Ghost(m));
    let e = tmp;
    // rounds 33-36
    let wx4_09 = schedule_pair(wx4_05, wx4_06, wx4_07, wx4_08, Ghost(m), Ghost(32));
    let tmp = sha1h(abcd.l0);
    let abcd = sha1p4(abcd, e, vadd_k(wx4_09, k2x4), 32, Ghost(h), Ghost(m));
    let e = tmp;
    // rounds 37-40
    let wx4_10 = schedule_pair(wx4_06, wx4_07, wx4_08, wx4_09, Ghost(m), Ghost(36));
    let tmp = sha1h(abcd.l0);
    let abcd = sha1p4(abcd, e, vadd_k(wx4_10, k2x4), 36, Ghost(h), Ghost(m));
    let e = tmp;

    let k3x4 = 0x8F1BBCDCu32;
    // rounds 41-44
    let wx4_11 = schedule_pair(wx4_07, wx4_08, wx4_09, wx4_10, Ghost(m), Ghost(40));
    let tmp = sha1h(abcd.l0);
    let abcd = sha1m4(abcd, e, vadd_k(wx4_11, k3x4), 40, Ghost(h), Ghost(m));
    let e = tmp;
    // rounds 45-48
    let wx4_12 = schedule_pair(wx4_08, wx4_09, wx4_10, wx4_11, Ghost(m), Ghost(44));
    let tmp = sha1h(abcd.l0);
    let abcd = sha1m4(abcd, e, vadd_k(wx4_12, k3x4), 44, Ghost(h), Ghost(m));
    let e = tmp;
    // rounds 49-52
    let wx4_13 = schedule_pair(wx4_09, wx4_10, wx4_11, wx4_12, Ghost(m), Ghost(48));
    let tmp = sha1h(abcd.l0);
    let abcd = sha1m4(abcd, e, vadd_k(wx4_13, k3x4), 48, Ghost(h), Ghost(m));
    let e = tmp;
    // rounds 53-56
    let wx4_14 = schedule_pair(wx4_10, wx4_11, wx4_12, wx4_13, Ghost(m), Ghost(52));
    let tmp = sha1h(abcd.l0);
    let abcd = sha1m4(abcd, e, vadd_k(wx4_14, k3x4), 52, Ghost(h), Ghost(m));
    let e = tmp;
    // rounds 57-60
    let wx4_15 = schedule_pair(wx4_11, wx4_12, wx4_13, wx4_14, Ghost(m), Ghost(56));
    let tmp = sha1h(abcd.l0);
    let abcd = sha1m4(abcd, e, vadd_k(wx4_15, k3x4), 56, Ghost(h), Ghost(m));
    let e = tmp;

    let k4x4 = 0xCA62C1D6u32;
    // rounds 61-64
    let wx4_16 = schedule_pair(wx4_12, wx4_13, wx4_14, wx4_15, Ghost(m), Ghost(60));
    let tmp = sha1h(abcd.l0);
    let abcd = sha1p4(abcd, e, vadd_k(wx4_16, k4x4), 60, Ghost(h), Ghost(m));
    let e = tmp;
    // rounds 65-68
    let wx4_17 = schedule_pair(wx4_13, wx4_14, wx4_15, wx4_16, Ghost(m), Ghost(64));
    let tmp = sha1h(abcd.l0);
    let abcd = sha1p4(abcd, e, vadd_k(wx4_17, k4x4), 64, Ghost(h), Ghost(m));
    let e = tmp;
    // rounds 69-72
    let wx4_18 = schedule_pair(wx4_14, wx4_15, wx4_16, wx4_17, Ghost(m), Ghost(68));
    let tmp = sha1h(abcd.l0);
    let abcd = sha1p4(abcd, e, vadd_k(wx4_18, k4x4), 68, Ghost(h), Ghost(m));
    let e = tmp;
    // rounds 73-76
    let wx4_19 = schedule_pair(wx4_15, wx4_16, wx4_17, wx4_18, Ghost(m), Ghost(72));
    let tmp = sha1h(abcd.l0);
    let abcd = sha1p4(abcd, e, vadd_k(wx4_19, k4x4), 72, Ghost(h), Ghost(m));
    let e = tmp;
    // rounds 77-80
    let wx4_20 = schedule_pair(wx4_16, wx4_17, wx4_18, wx4_19, Ghost(m), Ghost(76));
    let tmp = sha1h(abcd.l0);
    let abcd = sha1p4(abcd, e, vadd_k(wx4_20, k4x4), 76, Ghost(h), Ghost(m));
    let e = tmp;

    let out = U32x4 {
        l0: add32(abcd.l0, state.0.l0),
        l1: add32(abcd.l1, state.0.l1),
        l2: add32(abcd.l2, state.0.l2),
        l3: add32(abcd.l3, state.0.l3),
    };
    let e_out = add32(e, state.1);
    proof {
        assert(state_of(out, e_out) =~= compress(h, m));
    }
    (out, e_out)
}

} // verus!

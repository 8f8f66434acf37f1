use simd_sha1::packed::{iterate, U32x4};
use simd_sha1::schedule::{message_schedule_v1, w_and_k};
use simd_sha1::{finalize, hash, hash_checked, hash_padded, initial_state, padding::padding};

#[test]
fn hash_padded_equals_hash_on_padded_input() {
    let message = padding(b"abc");
    assert_eq!(hash_padded(message), hash(b"abc"));
    let data = vec![b'x'; 200];
    let message = padding(&data);
    assert_eq!(hash_padded(message), hash(&data));
}

#[test]
fn hash_checked_accepts_ordinary_input() {
    let r = hash_checked(b"abc");
    assert_eq!(r, Ok(hash(b"abc")));
}

#[test]
fn finalize_serializes_big_endian() {
    let digest = finalize(initial_state());
    assert_eq!(
        digest,
        [
            0x67, 0x45, 0x23, 0x01, 0xEF, 0xCD, 0xAB, 0x89, 0x98, 0xBA, 0xDC, 0xFE, 0x10, 0x32,
            0x54, 0x76, 0xC3, 0xD2, 0xE1, 0xF0,
        ]
    );
}

#[test]
fn iterate_stores_lanes_in_order() {
    let v = U32x4 { l0: 1, l1: 2, l2: 3, l3: 4 };
    assert_eq!(iterate(v), [1, 2, 3, 4]);
}

#[test]
fn message_schedule_loads_big_endian_words() {
    let block: Vec<u8> = (0u8..64).collect();
    let v = message_schedule_v1::<0>(&block);
    assert_eq!([v.l0, v.l1, v.l2, v.l3], [0x00010203, 0x04050607, 0x08090A0B, 0x0C0D0E0F]);
    let v = message_schedule_v1::<16>(&block);
    assert_eq!([v.l0, v.l1, v.l2, v.l3], [0x10111213, 0x14151617, 0x18191A1B, 0x1C1D1E1F]);
    let v = message_schedule_v1::<48>(&block);
    assert_eq!([v.l0, v.l1, v.l2, v.l3], [0x30313233, 0x34353637, 0x38393A3B, 0x3C3D3E3F]);
}

#[test]
fn w_and_k_first_group_adds_first_constant() {
    let block: Vec<u8> = (0u8..64).collect();
    let groups = w_and_k(&block);
    let first = groups[0][0];
    assert_eq!(first.l0, 0x00010203u32.wrapping_add(0x5A827999));
    assert_eq!(first.l1, 0x04050607u32.wrapping_add(0x5A827999));
    assert_eq!(first.l2, 0x08090A0Bu32.wrapping_add(0x5A827999));
    assert_eq!(first.l3, 0x0C0D0E0Fu32.wrapping_add(0x5A827999));
}

#[test]
fn w_and_k_expanded_words_follow_recurrence() {
    let block: Vec<u8> = (0u8..64).collect();
    let groups = w_and_k(&block);
    // materialize the schedule with the defining recurrence
    let mut w = [0u32; 80];
    for t in 0..16 {
        w[t] = u32::from_be_bytes([block[4 * t], block[4 * t + 1], block[4 * t + 2], block[4 * t
            + 3]]);
    }
    for t in 16..80 {
        w[t] = (w[t - 3] ^ w[t - 8] ^ w[t - 14] ^ w[t - 16]).rotate_left(1);
    }
    let k = [0x5A827999u32, 0x6ED9EBA1, 0x8F1BBCDC, 0xCA62C1D6];
    for g in 0..4 {
        for q in 0..5 {
            let v = groups[g][q];
            let t = 20 * g + 4 * q;
            assert_eq!(v.l0, w[t].wrapping_add(k[g]));
            assert_eq!(v.l1, w[t + 1].wrapping_add(k[g]));
            assert_eq!(v.l2, w[t + 2].wrapping_add(k[g]));
            assert_eq!(v.l3, w[t + 3].wrapping_add(k[g]));
        }
    }
}

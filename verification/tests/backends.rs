use simd_sha1::arm_crypto;
use simd_sha1::packed::{self, U32x4};
use simd_sha1::scalar;
use simd_sha1::sha_ni;

const IV: [u32; 5] = [0x67452301, 0xEFCDAB89, 0x98BADCFE, 0x10325476, 0xC3D2E1F0];

fn compare_backends(state: [u32; 5], block: &[u8]) {
    let scalar_out = scalar::compress_block(state, block);
    let packed_out = packed::hash_block(state, block);
    assert_eq!(scalar_out, packed_out);

    let vec_state = (U32x4 { l0: state[0], l1: state[1], l2: state[2], l3: state[3] }, state[4]);
    let (arm_abcd, arm_e) = arm_crypto::hash_block(vec_state, block);
    assert_eq!([arm_abcd.l0, arm_abcd.l1, arm_abcd.l2, arm_abcd.l3, arm_e], scalar_out);

    let (ni_abcd, ni_e) = sha_ni::hash_block(vec_state, block);
    assert_eq!([ni_abcd.l0, ni_abcd.l1, ni_abcd.l2, ni_abcd.l3, ni_e], scalar_out);
}

#[test]
fn backends_agree_on_ascending_block() {
    let block: Vec<u8> = (0u8..64).collect();
    compare_backends(IV, &block);
}

#[test]
fn backends_agree_on_zero_block() {
    let block = [0u8; 64];
    compare_backends(IV, &block);
}

#[test]
fn backends_agree_on_arbitrary_state() {
    let block: Vec<u8> = (0u8..64).map(|b| b.wrapping_mul(37).wrapping_add(11)).collect();
    let state = [0xDEADBEEF, 0x01234567, 0x89ABCDEF, 0x0F1E2D3C, 0x4B5A6978];
    compare_backends(state, &block);
}

#[test]
fn backends_agree_on_padded_abc_block() {
    let message = simd_sha1::padding::padding(b"abc");
    assert_eq!(message.len(), 64);
    compare_backends(IV, &message);
}

#[test]
fn compressor_depends_on_state_and_block() {
    let block = [0u8; 64];
    let zero_state = [0u32; 5];
    let from_zero = scalar::compress_block(zero_state, &block);
    let from_iv = scalar::compress_block(IV, &block);
    assert_ne!(from_zero, zero_state);
    assert_ne!(from_iv, IV);
    assert_ne!(from_zero, from_iv);
    let other_block: Vec<u8> = (0u8..64).collect();
    assert_ne!(scalar::compress_block(IV, &other_block), from_iv);
}

#[test]
fn round_function_values() {
    assert_eq!(scalar::choice(0b1100, 0b1010, 0b0110), 0b1010);
    assert_eq!(scalar::majority(0b1100, 0b1010, 0b0110), 0b1110);
    assert_eq!(scalar::parity(0b1100, 0b1010, 0b0110), 0b0000);
    assert_eq!(scalar::choice(0xFFFFFFFF, 0x12345678, 0x9ABCDEF0), 0x12345678);
    assert_eq!(scalar::choice(0, 0x12345678, 0x9ABCDEF0), 0x9ABCDEF0);
    assert_eq!(scalar::majority(0xF0F0F0F0, 0xF0F0F0F0, 0x0F0F0F0F), 0xF0F0F0F0);
    assert_eq!(scalar::parity(0xF0F0F0F0, 0x0F0F0F0F, 0xFFFFFFFF), 0);
}

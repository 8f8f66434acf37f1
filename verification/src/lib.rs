//! SHA-1 message digest engine.
//!
//! The input is padded into whole 64-byte blocks, each block is folded into a
//! five-word running state by a block compressor, and the final state is
//! serialized as a 20-byte big-endian digest.  Several back-ends implement
//! the compressor; each is proved to compute the same reference compression,
//! so all of them produce bit-identical digests.

use vstd::prelude::*;

pub mod arm_crypto;
pub mod lemmas;
pub mod model;
pub mod packed;
pub mod padding;
pub mod scalar;
pub mod schedule;
pub mod sha_ni;
pub mod words;

use crate::model::{block_count, digest_bytes, iv, max_len, sha1, state_after};
use crate::packed::{state_of, U32x4};
use crate::padding::padding;

verus! {

/// Why a digest request was refused.
#[derive(Clone, Copy, Debug, PartialEq, Eq, Structural)]
pub enum HashError {
    /// The input is longer than 2^61 - 9 bytes, so its bit length would not
    /// fit the 64-bit length suffix.
    InputTooLarge,
}

/// The fixed initialization vector as an in-memory state.
pub fn initial_state() -> (h: [u32; 5])
    ensures
        h@ == iv(),
{
    let mut h = [0u32; 5];
    h[0] = 0x67452301;
    h[1] = 0xEFCDAB89;
    h[2] = 0x98BADCFE;
    h[3] = 0x10325476;
    h[4] = 0xC3D2E1F0;
    proof {
        assert(h@ =~= iv());
    }
    h
}

/// Serializes the five state words as the 20-byte big-endian digest.
pub fn finalize(hash_value: [u32; 5]) -> (digest: [u8; 20])
    ensures
        digest@ == digest_bytes(hash_value@),
{
    let mut digest = [0u8; 20];
    let mut i: usize = 0;
    while i < 5
        invariant
            i <= 5,
            digest@.len() == 20,
            forall|k: int| 0 <= k < 4 * i ==> digest@[k] == digest_bytes(hash_value@)[k],
        decreases 5 - i,
    {
        let x = hash_value[i];
        digest[4 * i] = (x >> 24) as u8;
        digest[4 * i + 1] = (x >> 16) as u8;
        digest[4 * i + 2] = (x >> 8) as u8;
        digest[4 * i + 3] = x as u8;
        i += 1;
    }
    proof {
        assert(digest@ =~= digest_bytes(hash_value@));
    }
    digest
}

/// Hashes a message already padded into whole 64-byte blocks: every block is
/// folded into a packed (ABCD, E) state by the fused-mixing compressor, and
/// the final state is serialized big-endian.
pub fn hash_padded(data: Vec<u8>) -> (digest: [u8; 20])
    requires
        data@.len() % 64 == 0,
    ensures
        digest@ == digest_bytes(state_after(data@, (data@.len() / 64) as int)),
{
    let total = data.len();
    let n = total / 64;
    proof {
        vstd::arithmetic::div_mod::lemma_fundamental_div_mod(data@.len() as int, 64);
    }
    let mut state = (
        U32x4 { l0: 0x67452301, l1: 0xEFCDAB89, l2: 0x98BADCFE, l3: 0x10325476 },
        0xC3D2E1F0u32,
    );
    proof {
        assert(state_of(state.0, state.1) =~= iv());
    }
    let mut i: usize = 0;
    while i < n
        invariant
            data@.len() % 64 == 0,
            total == data@.len(),
            n == data@.len() / 64,
            64 * n == total,
            i <= n,
            state_of(state.0, state.1) == state_after(data@, i as int),
        decreases n - i,
    {
        proof {
            assert(64 * (i + 1) <= 64 * n) by (nonlinear_arith)
                requires
                    i + 1 <= n,
            ;
        }
        let block: &[u8] = &data[64 * i..64 * i + 64];
        state = arm_crypto::hash_block(state, block);
        i += 1;
    }
    let mut hash_value = [0u32; 5];
    hash_value[0] = state.0.l0;
    hash_value[1] = state.0.l1;
    hash_value[2] = state.0.l2;
    hash_value[3] = state.0.l3;
    hash_value[4] = state.1;
    proof {
        assert(hash_value@ =~= state_of(state.0, state.1));
    }
    finalize(hash_value)
}

/// The one-shot digest: pads the message, folds every block into the state
/// with the packed-vector compressor, and serializes the final state.
/// Bit-identical to FIPS 180-4 SHA-1.
pub fn hash(bytes: &[u8]) -> (digest: [u8; 20])
    requires
        bytes@.len() <= max_len(),
    ensures
        digest@ == sha1(bytes@),
{
    let message = padding(bytes);
    proof {
        crate::lemmas::lemma_padded_len(bytes@);
        vstd::arithmetic::div_mod::lemma_fundamental_div_mod(message@.len() as int, 64);
        assert((message@.len() / 64) as int == block_count(bytes@.len()) as int)
            by (nonlinear_arith)
            requires
                message@.len() == 64 * block_count(bytes@.len()),
        ;
    }
    let total = message.len();
    let n = total / 64;
    let mut hash_value = initial_state();
    let mut i: usize = 0;
    while i < n
        invariant
            message@.len() % 64 == 0,
            total == message@.len(),
            n == message@.len() / 64,
            64 * n == total,
            i <= n,
            hash_value@ == state_after(message@, i as int),
        decreases n - i,
    {
        proof {
            assert(64 * (i + 1) <= 64 * n) by (nonlinear_arith)
                requires
                    i + 1 <= n,
            ;
        }
        let block: &[u8] = &message[64 * i..64 * i + 64];
        hash_value = packed::hash_block(hash_value, block);
        i += 1;
    }
    finalize(hash_value)
}

/// Hashes after checking the length bound: an input longer than the model
/// accepts is refused rather than hashed with a truncated length field.
pub fn hash_checked(bytes: &[u8]) -> (r: Result<[u8; 20], HashError>)
    ensures
        bytes@.len() <= max_len() ==> (r matches Ok(digest) && digest@ == sha1(bytes@)),
        bytes@.len() > max_len() ==> (r matches Err(e) && e == HashError::InputTooLarge),
{
    if bytes.len() as u64 <= 0x1FFFFFFFFFFFFFF7u64 {
        Ok(hash(bytes))
    } else {
        Err(HashError::InputTooLarge)
    }
}

} // verus!

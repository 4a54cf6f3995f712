//! Mathematical model of the seed-derivation scheme: PBKDF2 with
//! HMAC-SHA256 as the pseudorandom function, a fixed round count and a
//! fixed 64-byte output, stated over byte sequences.

use vstd::prelude::*;
use crate::hashes::hmac_sha256_of;
use crate::PBKDF2_ROUNDS;

verus! {

/// Pointwise XOR of two byte sequences of equal length.
pub open spec fn xor_bytes(a: Seq<u8>, b: Seq<u8>) -> Seq<u8> {
    Seq::new(a.len(), |i: int| a[i] ^ b[i])
}

/// The four-byte big-endian encoding of a 32-bit integer.
pub open spec fn be32_bytes(x: u32) -> Seq<u8> {
    seq![(x >> 24) as u8, (x >> 16) as u8, (x >> 8) as u8, x as u8]
}

/// The `j`-th element of the PBKDF2 iteration chain for one output block:
/// `U_1` is the HMAC of the salted first message, and each later `U_j`
/// is the HMAC of its predecessor, all under the password as key.
pub open spec fn pbkdf2_u(password: Seq<u8>, msg1: Seq<u8>, j: nat) -> Seq<u8>
    decreases j,
{
    if j <= 1 {
        hmac_sha256_of(password, msg1)
    } else {
        hmac_sha256_of(password, pbkdf2_u(password, msg1, (j - 1) as nat))
    }
}

/// The XOR of the first `rounds` elements of the iteration chain:
/// the value of one finished PBKDF2 output block.
pub open spec fn pbkdf2_f(password: Seq<u8>, msg1: Seq<u8>, rounds: nat) -> Seq<u8>
    decreases rounds,
{
    if rounds <= 1 {
        pbkdf2_u(password, msg1, 1)
    } else {
        xor_bytes(pbkdf2_f(password, msg1, (rounds - 1) as nat), pbkdf2_u(password, msg1, rounds))
    }
}

/// The PBKDF2 output block with the given one-based index: its first
/// message is the salt followed by the big-endian block index.
pub open spec fn pbkdf2_block(password: Seq<u8>, salt: Seq<u8>, block_index: u32, rounds: nat) -> Seq<u8> {
    pbkdf2_f(password, salt + be32_bytes(block_index), rounds)
}

/// The full 64-byte derived seed: the concatenation of the first two
/// 32-byte PBKDF2 output blocks, each iterated for the fixed round count.
pub open spec fn seed_of(password: Seq<u8>, salt: Seq<u8>) -> Seq<u8> {
    pbkdf2_block(password, salt, 1, PBKDF2_ROUNDS as nat)
        + pbkdf2_block(password, salt, 2, PBKDF2_ROUNDS as nat)
}

/// Determinism of seed derivation: the seed is a function of the password
/// bytes and the salt bytes alone, so any two derivations from equal
/// inputs yield equal seeds.
pub proof fn lemma_seed_deterministic(
    password: Seq<u8>,
    salt: Seq<u8>,
    seed1: Seq<u8>,
    seed2: Seq<u8>,
)
    requires
        seed1 == seed_of(password, salt),
        seed2 == seed_of(password, salt),
    ensures
        seed1 == seed2,
{
}

} // verus!

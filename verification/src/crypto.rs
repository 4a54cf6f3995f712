//! The three primitives of the mnemonic pipeline: secure entropy
//! generation, the SHA-256 checksum byte, and PBKDF2 seed derivation.
//! The derivation loop is implemented and verified here against the
//! model in `model`; only the HMAC, SHA-256 and randomness calls are
//! trusted.

use vstd::prelude::*;
use vstd::slice::slice_to_vec;
use vstd::string::StringSliceAdditionalSpecFns;
use crate::hashes::{hmac_sha256, sha256_digest, sha256_of};
use crate::model::{be32_bytes, pbkdf2_block, pbkdf2_f, pbkdf2_u, seed_of, xor_bytes};
use crate::rng::{new_rng, next_random_byte};
use crate::{PBKDF2_ROUNDS, SEED_BYTES};

verus! {

/// Produces `byte_length` bytes drawn from the operating system's
/// cryptographically secure random source. A length of zero is legal and
/// yields an empty sequence.
pub fn gen_random_bytes(byte_length: usize) -> (bytes: Vec<u8>)
    ensures
        bytes@.len() == byte_length,
{
    let mut rng = new_rng();
    let mut bytes: Vec<u8> = Vec::with_capacity(byte_length);
    let mut i: usize = 0;
    while i < byte_length
        invariant
            i <= byte_length,
            bytes@.len() == i,
        decreases byte_length - i,
    {
        let b = next_random_byte(&mut rng);
        bytes.push(b);
        i = i + 1;
    }
    bytes
}

/// Returns the first byte of the SHA-256 digest of `input`, from which
/// the caller takes the checksum bits appended to raw entropy before
/// word encoding. Defined for every input, the empty sequence included.
pub fn checksum_first_byte(input: &[u8]) -> (checksum: u8)
    ensures
        checksum == sha256_of(input@)[0],
{
    let digest = sha256_digest(input);
    digest[0]
}

/// XORs `other` into `acc`, byte by byte.
fn xor_assign(acc: &mut Vec<u8>, other: &[u8])
    requires
        old(acc)@.len() == other@.len(),
    ensures
        final(acc)@ == xor_bytes(old(acc)@, other@),
{
    let n = acc.len();
    let mut i: usize = 0;
    while i < n
        invariant
            i <= n,
            n == acc@.len(),
            acc@.len() == old(acc)@.len(),
            other@.len() == old(acc)@.len(),
            forall|k: int| 0 <= k < i ==> acc@[k] == (old(acc)@[k] ^ other@[k]),
            forall|k: int| i <= k < n ==> acc@[k] == old(acc)@[k],
        decreases n - i,
    {
        let v = acc[i] ^ other[i];
        acc.set(i, v);
        i = i + 1;
    }
    assert(acc@ =~= xor_bytes(old(acc)@, other@));
}

/// Computes one 32-byte PBKDF2 output block: the XOR of the full
/// HMAC-SHA256 iteration chain seeded by the salt and the big-endian
/// block index.
fn derive_block(password: &[u8], salt: &[u8], block_index: u32) -> (block: Vec<u8>)
    ensures
        block@ == pbkdf2_block(password@, salt@, block_index, PBKDF2_ROUNDS as nat),
        block@.len() == 32,
{
    let ghost msg1: Seq<u8> = salt@ + be32_bytes(block_index);
    let mut msg: Vec<u8> = Vec::new();
    msg.extend_from_slice(salt);
    msg.push((block_index >> 24) as u8);
    msg.push((block_index >> 16) as u8);
    msg.push((block_index >> 8) as u8);
    msg.push(block_index as u8);
    assert(msg@ =~= msg1);

    let mut u = hmac_sha256(password, msg.as_slice());
    let mut block = slice_to_vec(u.as_slice());

    let mut j: u32 = 2;
    while j <= PBKDF2_ROUNDS
        invariant
            2 <= j <= PBKDF2_ROUNDS + 1,
            u@ == pbkdf2_u(password@, msg1, (j - 1) as nat),
            block@ == pbkdf2_f(password@, msg1, (j - 1) as nat),
            u@.len() == 32,
            block@.len() == 32,
        decreases PBKDF2_ROUNDS + 1 - j,
    {
        u = hmac_sha256(password, u.as_slice());
        xor_assign(&mut block, u.as_slice());
        j = j + 1;
    }
    block
}

/// Derives the 64-byte binary seed from the mnemonic phrase bytes and
/// the salt, by PBKDF2 with HMAC-SHA256, the fixed round count, and the
/// mnemonic bytes as the key. The salt string is taken as its UTF-8
/// bytes; every input, the empty ones included, yields exactly 64 bytes,
/// and equal inputs always yield equal seeds.
pub fn derive_seed(mnemonic: &[u8], salt: &str) -> (seed: Vec<u8>)
    ensures
        seed@.len() == SEED_BYTES,
        seed@ == seed_of(mnemonic@, salt.spec_bytes()),
{
    let salt_bytes: &[u8] = salt.as_bytes();
    let mut seed = derive_block(mnemonic, salt_bytes, 1);
    let mut second = derive_block(mnemonic, salt_bytes, 2);
    seed.append(&mut second);
    seed
}

} // verus!

//! Cryptographic primitives for a BIP-39-style mnemonic phrase system:
//! secure entropy generation, the SHA-256 checksum byte, and PBKDF2-based
//! seed derivation from a mnemonic phrase and a salt.

use vstd::prelude::*;

pub mod crypto;
pub mod hashes;
pub mod model;
pub mod rng;

verus! {

/// Number of HMAC iterations applied per output block of the
/// seed-derivation function, fixed by the interoperability standard.
pub const PBKDF2_ROUNDS: u32 = 2048;

/// Length in bytes of every derived seed.
pub const SEED_BYTES: usize = 64;

} // verus!

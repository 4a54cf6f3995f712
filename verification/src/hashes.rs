//! Trusted access to the SHA-256 and HMAC-SHA256 primitives of the
//! `sha2` and `hmac` crates. The digests themselves are left abstract:
//! each is named by an uninterpreted spec function of its inputs, and
//! everything the library proves about them flows through those names.

use vstd::prelude::*;
use hmac::Mac;
use sha2::Digest;

verus! {

/// The 32-byte SHA-256 digest of a byte sequence.
pub uninterp spec fn sha256_of(input: Seq<u8>) -> Seq<u8>;

/// The 32-byte HMAC-SHA256 tag of a message under a key.
pub uninterp spec fn hmac_sha256_of(key: Seq<u8>, msg: Seq<u8>) -> Seq<u8>;

/// Relies on `sha2::Sha256` through `digest::Digest::digest`: the SHA-256
/// digest of the input, always 32 bytes and a function of the input alone.
#[verifier::external_body]
pub(crate) fn sha256_digest(input: &[u8]) -> (digest: Vec<u8>)
    ensures
        digest@ == sha256_of(input@),
        digest@.len() == 32,
{
    sha2::Sha256::digest(input).to_vec()
}

/// Relies on `hmac::Hmac<sha2::Sha256>`: the HMAC-SHA256 tag of `msg` under
/// `key`, always 32 bytes and a function of key and message alone.
/// `new_from_slice` accepts a key of any length and has no error path.
#[verifier::external_body]
pub(crate) fn hmac_sha256(key: &[u8], msg: &[u8]) -> (tag: Vec<u8>)
    ensures
        tag@ == hmac_sha256_of(key@, msg@),
        tag@.len() == 32,
{
    let mac = hmac::Hmac::<sha2::Sha256>::new_from_slice(key).unwrap();
    mac.chain_update(msg).finalize().into_bytes().to_vec()
}

} // verus!

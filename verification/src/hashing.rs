//! Hashing of key material: SHA-256 of the UTF-8 text, rendered as
//! lower-case hexadecimal.

use vstd::prelude::*;
use vstd::utf8::encode_utf8;
use sha2::Digest;
use crate::text::{hex_lower, lemma_hex_lower_len, to_hex_lower};

verus! {

/// The SHA-256 digest of `data`, as `sha2::Sha256` computes it.
pub uninterp spec fn sha256_of(data: Seq<u8>) -> Seq<u8>;

/// Calls `sha2::Sha256::digest`. Trusted: the result is the digest of `data`
/// (named `sha256_of`, not written out) and is 32 bytes long, which the
/// output type `GenericArray<u8, U32>` fixes.
#[verifier::external_body]
fn sha256_digest(data: &[u8]) -> (digest: Vec<u8>)
    ensures
        digest@ == sha256_of(data@),
        digest@.len() == 32,
{
    sha2::Sha256::digest(data).to_vec()
}

/// The hash of key material: hex of the SHA-256 of its UTF-8 bytes.
pub open spec fn key_material_hash(material: Seq<char>) -> Seq<char> {
    hex_lower(sha256_of(encode_utf8(material)))
}

/// Stable, fixed-length (64 characters) hash of key material.
pub fn hash_key_material(material: &str) -> (hash: String)
    ensures
        hash@ == key_material_hash(material@),
        hash@.len() == 64,
{
    let digest = sha256_digest(material.as_bytes());
    proof {
        lemma_hex_lower_len(digest@);
    }
    to_hex_lower(digest.as_slice())
}

} // verus!

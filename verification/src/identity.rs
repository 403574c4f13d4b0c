//! Content identity: a cryptographic digest of a submitted payload, and a
//! short record identifier derived from a timestamp and the requester's
//! textual identity.
//!
//! The identifier is collision-resistant in practice but not globally
//! unique: two submissions by the same requester within the same timestamp
//! granularity derive the same identifier, and the registry then treats the
//! second as an overwrite.
use vstd::prelude::*;

use crate::text::{bytes_to_hex, dec_str, hex_of, u64_to_string};
use vstd::utf8::encode_utf8;

verus! {

/// The SHA-256 digest of a byte sequence: 32 bytes that depend on the
/// input bytes alone.
pub uninterp spec fn sha256_of(bytes: Seq<u8>) -> Seq<u8>;

/// Relies on sha2's Sha256 through the Digest trait's one-shot `digest`:
/// the 256-bit (32-byte) hash of exactly the input bytes, a function of
/// those bytes alone.
#[verifier::external_body]
pub(crate) fn sha256_bytes(bytes: &[u8]) -> (r: Vec<u8>)
    ensures
        r@ == sha256_of(bytes@),
        r@.len() == 32,
{
    <sha2::Sha256 as sha2::Digest>::digest(bytes).to_vec()
}

/// The hex-encoded SHA-256 digest of a payload.
pub open spec fn spec_wasm_hash(bytes: Seq<u8>) -> Seq<char> {
    hex_of(sha256_of(bytes))
}

/// Hex-encoded SHA-256 digest of a payload: the content identity and
/// integrity fingerprint of a submitted module. Identical payloads always
/// yield identical digests.
pub fn hash_wasm_bytes(wasm_bytes: &[u8]) -> (s: String)
    ensures
        s@ == spec_wasm_hash(wasm_bytes@),
        s@.len() == 64,
{
    let digest = sha256_bytes(wasm_bytes);
    bytes_to_hex(digest.as_slice())
}

/// Identical payloads always yield identical digests: the digest is a
/// function of the payload bytes alone.
pub proof fn lemma_digest_deterministic(payload: Seq<u8>, other: Seq<u8>)
    requires
        payload == other,
    ensures
        spec_wasm_hash(payload) == spec_wasm_hash(other),
{
}

/// The string that the record identifier is derived from: the decimal
/// timestamp, a dash, and the requester's textual identity.
pub open spec fn audit_id_preimage(timestamp: u64, requester: Seq<char>) -> Seq<char> {
    dec_str(timestamp as nat) + seq!['-'] + requester
}

/// The record identifier: the first 16 hex characters of the SHA-256
/// digest of the preimage's UTF-8 bytes.
pub open spec fn spec_audit_id(timestamp: u64, requester: Seq<char>) -> Seq<char> {
    hex_of(sha256_of(encode_utf8(audit_id_preimage(timestamp, requester)))).take(16)
}

/// Derives a fresh record identifier from a timestamp and the requester's
/// textual identity. Not globally unique: the same requester at the same
/// timestamp derives the same identifier.
pub fn generate_audit_id(timestamp: u64, requester: &str) -> (id: String)
    ensures
        id@ == spec_audit_id(timestamp, requester@),
        id@.len() == 16,
{
    let mut combined = u64_to_string(timestamp);
    combined.push('-');
    combined.append(requester);
    proof {
        assert(combined@ =~= audit_id_preimage(timestamp, requester@));
    }
    let digest = sha256_bytes(combined.as_str().as_bytes());
    let hex = bytes_to_hex(digest.as_slice());
    let id = String::from_str(hex.as_str().substring_char(0, 16));
    proof {
        assert(id@ =~= spec_audit_id(timestamp, requester@));
    }
    id
}

} // verus!

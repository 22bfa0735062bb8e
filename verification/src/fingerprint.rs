//! The fingerprint engine: a content hash over a payload and the
//! HTTP entity tag derived from it.
//!
//! Two payloads with identical bytes always yield identical tags: the tag
//! is a pure function of the bytes, with no randomness and no salt. This
//! determinism is what the optimistic-concurrency checks rest on.

use vstd::prelude::*;
use vstd::string::*;

verus! {

/// The SHA-256 digest of a byte sequence, as the sha2 crate computes it.
/// Left uninterpreted: all that matters here is that the digest is a
/// function of the input bytes alone.
pub uninterp spec fn sha256_of(data: Seq<u8>) -> Seq<u8>;

/// The URL-safe, padding-free base64 rendering of a byte sequence, as the
/// base64 crate's `URL_SAFE_NO_PAD` engine produces it. Left
/// uninterpreted: a function of the input bytes alone.
pub uninterp spec fn base64url_of(data: Seq<u8>) -> Seq<char>;

/// The entity tag of a payload: its SHA-256 digest, rendered with the
/// URL-safe padding-free base64 alphabet and wrapped in double quotes per
/// entity-tag syntax.
pub open spec fn etag_of(data: Seq<u8>) -> Seq<char> {
    seq!['"'] + base64url_of(sha256_of(data)) + seq!['"']
}

/// Relies on `sha2::Sha256::digest`: a 32-byte digest determined by the
/// input bytes alone.
#[verifier::external_body]
fn sha256(data: &Vec<u8>) -> (r: Vec<u8>)
    ensures
        r@ == sha256_of(data@),
        r@.len() == 32,
{
    <sha2::Sha256 as sha2::Digest>::digest(data.as_slice()).to_vec()
}

/// Relies on `base64::engine::general_purpose::URL_SAFE_NO_PAD`'s
/// `encode`: a rendering determined by the input bytes alone, one that is
/// empty exactly when the input is empty.
#[verifier::external_body]
fn base64url(data: &Vec<u8>) -> (r: String)
    ensures
        r@ == base64url_of(data@),
        data@.len() == 0 ==> r@.len() == 0,
{
    base64::Engine::encode(&base64::engine::general_purpose::URL_SAFE_NO_PAD, data.as_slice())
}

/// Computes the entity tag of a payload.
pub fn compute_etag(data: &Vec<u8>) -> (r: String)
    ensures
        r@ == etag_of(data@),
{
    let hash = sha256(data);
    let encoded = base64url(&hash);
    let mut tag = String::from_str("\"");
    tag.append(encoded.as_str());
    tag.append("\"");
    proof {
        reveal_strlit("\"");
        assert(tag@ =~= etag_of(data@));
    }
    tag
}

/// The fingerprint is deterministic and stable: payloads with equal bytes
/// carry equal entity tags, no matter when either was submitted.
pub proof fn lemma_fingerprint_deterministic(p1: Seq<u8>, p2: Seq<u8>)
    requires
        p1 == p2,
    ensures
        etag_of(p1) == etag_of(p2),
{
}

} // verus!

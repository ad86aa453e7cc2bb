//! Binary-to-text codec and hash primitive, as trusted boundaries.
//!
//! The protocol transports opaque binary artifacts (proofs, verifying keys,
//! commitment hashes) as base64 text and binds attribute values with SHA-256.
//! Both are outside computations; their results are named by uninterpreted
//! spec functions, and the wrappers below state only what the crates'
//! documentation promises: determinism, the digest length, and the
//! encode/decode round trip.

use sha2::Digest;
use vstd::prelude::*;

verus! {

/// Decode failure for a text-encoded artifact.
#[derive(Clone, Copy, Debug, PartialEq, Eq, Structural)]
pub enum DecodeError {
    /// The text is not valid base64.
    InvalidBase64,
    /// The bytes under the base64 do not form a valid artifact of the
    /// expected kind.
    InvalidArtifact,
}

pub uninterp spec fn b64_of(bytes: Seq<u8>) -> Seq<char>;

pub uninterp spec fn b64_decoded(text: Seq<char>) -> Option<Seq<u8>>;

pub uninterp spec fn sha256_of(bytes: Seq<u8>) -> Seq<u8>;

/// Relies on base64::encode (standard alphabet, padded): the output text is a
/// pure function of the input bytes, four characters for every started group
/// of three bytes.
#[verifier::external_body]
pub(crate) fn b64_encode(bytes: &Vec<u8>) -> (r: String)
    ensures
        r@ == b64_of(bytes@),
        r@.len() == 4 * ((bytes@.len() + 2) / 3),
{
    base64::encode(bytes)
}

/// Relies on base64::decode (standard alphabet, padded): whether and to what
/// a text decodes is a pure function of the text, and decoding the encoding
/// of any byte string gives those bytes back.
#[verifier::external_body]
pub(crate) fn b64_decode(text: &str) -> (r: Option<Vec<u8>>)
    ensures
        r is Some <==> b64_decoded(text@) is Some,
        r matches Some(v) ==> b64_decoded(text@) == Some(v@),
        r matches Some(v) ==> forall|b: Seq<u8>| text@ == #[trigger] b64_of(b) ==> v@ == b,
        r is None ==> forall|b: Seq<u8>| text@ != #[trigger] b64_of(b),
{
    base64::decode(text).ok()
}

/// Relies on sha2::Sha256: a 32-byte digest that is a pure function of the
/// input bytes.
#[verifier::external_body]
pub(crate) fn sha256_digest(bytes: &Vec<u8>) -> (r: Vec<u8>)
    ensures
        r@ == sha256_of(bytes@),
        r@.len() == 32,
{
    sha2::Sha256::digest(bytes.as_slice()).to_vec()
}

} // verus!

//! Text codecs for the backend's opaque artifacts.
//!
//! Proofs and verifying keys travel as base64 text. Encoding always
//! succeeds; decoding reports exactly which layer was malformed, and on the
//! encoding of any artifact that parses at all it returns an equal artifact —
//! the round trip the protocol's callers depend on.

use vstd::prelude::*;

use crate::backend::{
    proof_from_bytes, proof_parse, proof_repr, proof_to_bytes, vk_from_bytes, vk_parse, vk_repr,
    vk_to_bytes, ZkProof, ZkVerifyingKey,
};
use crate::codec::{b64_decode, b64_decoded, b64_encode, b64_of, DecodeError};

verus! {

/// Whether a text is the base64 of bytes that parse as a proof.
pub open spec fn proof_text_ok(text: Seq<char>) -> bool {
    match b64_decoded(text) {
        Some(b) => proof_parse(b) is Some,
        None => false,
    }
}

/// Which decode failure a proof text runs into, if any.
pub open spec fn proof_decode_error(text: Seq<char>) -> Option<DecodeError> {
    if b64_decoded(text) is None {
        Some(DecodeError::InvalidBase64)
    } else if proof_parse(b64_decoded(text).unwrap()) is None {
        Some(DecodeError::InvalidArtifact)
    } else {
        None
    }
}

/// Whether a text is the base64 of bytes that parse as a verifying key.
pub open spec fn vk_text_ok(text: Seq<char>) -> bool {
    match b64_decoded(text) {
        Some(b) => vk_parse(b) is Some,
        None => false,
    }
}

/// Which decode failure a verifying-key text runs into, if any.
pub open spec fn vk_decode_error(text: Seq<char>) -> Option<DecodeError> {
    if b64_decoded(text) is None {
        Some(DecodeError::InvalidBase64)
    } else if vk_parse(b64_decoded(text).unwrap()) is None {
        Some(DecodeError::InvalidArtifact)
    } else {
        None
    }
}

/// Encode a proof as base64 text of its 192-byte serialization: always 256
/// characters.
pub fn base64_encode_proof(proof: &ZkProof) -> (r: String)
    ensures
        r@ == b64_of(proof_repr(*proof)),
        r@.len() == 256,
{
    let bytes = proof_to_bytes(proof);
    b64_encode(&bytes)
}

/// Decode a proof from base64 text.
///
/// Succeeds exactly on texts whose base64 decodes to bytes that parse as a
/// proof, and on the encoding of any such proof returns an equal proof.
pub fn base64_decode_proof(text: &str) -> (r: Result<ZkProof, DecodeError>)
    ensures
        r is Ok <==> proof_text_ok(text@),
        r matches Err(e) ==> Some(e) == proof_decode_error(text@),
        forall|p: ZkProof|
            text@ == b64_of(#[trigger] proof_repr(p)) && proof_parse(proof_repr(p)) is Some ==> (
            r matches Ok(q) && q == p),
{
    let bytes = match b64_decode(text) {
        Some(b) => b,
        None => {
            return Err(DecodeError::InvalidBase64);
        },
    };
    match proof_from_bytes(&bytes) {
        Some(p) => Ok(p),
        None => Err(DecodeError::InvalidArtifact),
    }
}

/// Encode a verifying key as base64 text of its serialization.
pub fn base64_encode_verifying_key(vk: &ZkVerifyingKey) -> (r: String)
    ensures
        r@ == b64_of(vk_repr(*vk)),
{
    let bytes = vk_to_bytes(vk);
    b64_encode(&bytes)
}

/// Decode a verifying key from base64 text.
///
/// Succeeds exactly on texts whose base64 decodes to bytes that parse as a
/// verifying key, and on the encoding of any such key returns an equal key.
pub fn base64_decode_verifying_key(text: &str) -> (r: Result<ZkVerifyingKey, DecodeError>)
    ensures
        r is Ok <==> vk_text_ok(text@),
        r matches Err(e) ==> Some(e) == vk_decode_error(text@),
        forall|vk: ZkVerifyingKey|
            text@ == b64_of(#[trigger] vk_repr(vk)) && vk_parse(vk_repr(vk)) is Some ==> (
            r matches Ok(w) && w == vk),
{
    let bytes = match b64_decode(text) {
        Some(b) => b,
        None => {
            return Err(DecodeError::InvalidBase64);
        },
    };
    match vk_from_bytes(&bytes) {
        Some(vk) => Ok(vk),
        None => Err(DecodeError::InvalidArtifact),
    }
}

} // verus!

//! The external proving backend, behind trusted declarations.
//!
//! Proofs and verifying keys of the BLS12-381 Groth16 backend are opaque
//! here: each is held in an `external_body` struct whose only field is the
//! backend's value, and the protocol's logic only moves them between their
//! byte representations and the backend's verifier. Each wrapper states what
//! bellman's and bls12_381's sources show of the one call it makes.

use vstd::prelude::*;

verus! {

#[verifier::external_type_specification]
#[verifier::external_body]
pub struct ExScalar(bls12_381::Scalar);

/// An opaque Groth16 proof, as decoded from its 192-byte serialization.
#[verifier::external_body]
pub struct ZkProof {
    inner: bellman::groth16::Proof<bls12_381::Bls12>,
}

/// An opaque Groth16 verifying key, as decoded from its serialization.
#[verifier::external_body]
pub struct ZkVerifyingKey {
    inner: bellman::groth16::VerifyingKey<bls12_381::Bls12>,
}

/// An opaque prepared verifying key: the precomputation the verifier runs on.
#[verifier::external_body]
pub struct ZkPreparedKey {
    inner: bellman::groth16::PreparedVerifyingKey<bls12_381::Bls12>,
}

pub uninterp spec fn proof_repr(p: ZkProof) -> Seq<u8>;

pub uninterp spec fn proof_parse(bytes: Seq<u8>) -> Option<ZkProof>;

pub uninterp spec fn vk_repr(vk: ZkVerifyingKey) -> Seq<u8>;

pub uninterp spec fn vk_parse(bytes: Seq<u8>) -> Option<ZkVerifyingKey>;

pub uninterp spec fn prepared_of(vk: ZkVerifyingKey) -> ZkPreparedKey;

pub uninterp spec fn groth16_verdict(
    pvk: ZkPreparedKey,
    proof: ZkProof,
    inputs: Seq<bls12_381::Scalar>,
) -> bool;

pub uninterp spec fn scalar_of_u64(x: u64) -> bls12_381::Scalar;

pub uninterp spec fn scalar_of_le_bits(bits: Seq<bool>) -> bls12_381::Scalar;

/// Relies on bellman's Proof::write for BLS12-381: three compressed curve
/// points, 192 bytes, a pure function of the proof value; writing to a Vec
/// cannot fail.
#[verifier::external_body]
pub(crate) fn proof_to_bytes(p: &ZkProof) -> (r: Vec<u8>)
    ensures
        r@ == proof_repr(*p),
        r@.len() == 192,
{
    let mut v = Vec::new();
    p.inner.write(&mut v).expect("writing to a Vec cannot fail");
    v
}

/// Relies on bellman's Proof::read for BLS12-381: whether and to what the
/// bytes parse is a pure function of the bytes, and a proof's own
/// serialization, when it parses at all, parses back to an equal proof.
#[verifier::external_body]
pub(crate) fn proof_from_bytes(bytes: &Vec<u8>) -> (r: Option<ZkProof>)
    ensures
        r == proof_parse(bytes@),
        r matches Some(p) ==> forall|q: ZkProof| bytes@ == #[trigger] proof_repr(q) ==> p == q,
{
    match bellman::groth16::Proof::read(std::io::Cursor::new(bytes.as_slice())) {
        Ok(inner) => Some(ZkProof { inner }),
        Err(_) => None,
    }
}

/// Relies on bellman's VerifyingKey::write for BLS12-381: uncompressed curve
/// points and the big-endian length of the input commitment vector, a pure
/// function of the key value; writing to a Vec cannot fail.
#[verifier::external_body]
pub(crate) fn vk_to_bytes(vk: &ZkVerifyingKey) -> (r: Vec<u8>)
    ensures
        r@ == vk_repr(*vk),
{
    let mut v = Vec::new();
    vk.inner.write(&mut v).expect("writing to a Vec cannot fail");
    v
}

/// Relies on bellman's VerifyingKey::read for BLS12-381: whether and to what
/// the bytes parse is a pure function of the bytes, and a key's own
/// serialization, when it parses at all, parses back to an equal key.
#[verifier::external_body]
pub(crate) fn vk_from_bytes(bytes: &Vec<u8>) -> (r: Option<ZkVerifyingKey>)
    ensures
        r == vk_parse(bytes@),
        r matches Some(vk) ==> forall|w: ZkVerifyingKey| bytes@ == #[trigger] vk_repr(w) ==> vk
            == w,
{
    match bellman::groth16::VerifyingKey::read(std::io::Cursor::new(bytes.as_slice())) {
        Ok(inner) => Some(ZkVerifyingKey { inner }),
        Err(_) => None,
    }
}

/// Relies on bellman's prepare_verifying_key: a precomputation that is a
/// pure function of the key.
#[verifier::external_body]
pub(crate) fn prepare_vk(vk: &ZkVerifyingKey) -> (r: ZkPreparedKey)
    ensures
        r == prepared_of(*vk),
{
    ZkPreparedKey { inner: bellman::groth16::prepare_verifying_key(&vk.inner) }
}

/// Relies on bellman's verify_proof: the verdict is a deterministic check of
/// the Groth16 pairing equation, a pure function of the prepared key, the
/// proof and the public inputs.
#[verifier::external_body]
pub(crate) fn verify_groth16(
    pvk: &ZkPreparedKey,
    proof: &ZkProof,
    inputs: &Vec<bls12_381::Scalar>,
) -> (r: bool)
    ensures
        r == groth16_verdict(*pvk, *proof, inputs@),
{
    bellman::groth16::verify_proof(&pvk.inner, &proof.inner, inputs).is_ok()
}

/// Relies on bls12_381's Scalar::from_raw with limbs [x, 0, 0, 0]: the field
/// element is a pure function of x.
#[verifier::external_body]
pub(crate) fn scalar_from_u64(x: u64) -> (r: bls12_381::Scalar)
    ensures
        r == scalar_of_u64(x),
{
    bls12_381::Scalar::from_raw([x, 0, 0, 0])
}

} // verus!

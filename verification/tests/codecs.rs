// Text codecs for proofs and verifying keys, against artifacts serialized by
// the backend itself.

use bellman::groth16::{Proof, VerifyingKey};
use bls12_381::{Bls12, G1Affine, G2Affine};

use zkp::codec::DecodeError;
use zkp::utils::{
    base64_decode_proof, base64_decode_verifying_key, base64_encode_proof,
    base64_encode_verifying_key,
};

fn sample_proof() -> Proof<Bls12> {
    Proof {
        a: G1Affine::generator(),
        b: G2Affine::generator(),
        c: G1Affine::generator(),
    }
}

fn sample_vk() -> VerifyingKey<Bls12> {
    VerifyingKey {
        alpha_g1: G1Affine::generator(),
        beta_g1: G1Affine::generator(),
        beta_g2: G2Affine::generator(),
        gamma_g2: G2Affine::generator(),
        delta_g1: G1Affine::generator(),
        delta_g2: G2Affine::generator(),
        ic: vec![
            G1Affine::generator(),
            G1Affine::generator(),
            G1Affine::generator(),
            G1Affine::generator(),
        ],
    }
}

fn proof_text(p: &Proof<Bls12>) -> String {
    let mut bytes = Vec::new();
    p.write(&mut bytes).unwrap();
    base64::encode(bytes)
}

fn vk_text(vk: &VerifyingKey<Bls12>) -> String {
    let mut bytes = Vec::new();
    vk.write(&mut bytes).unwrap();
    base64::encode(bytes)
}

#[test]
fn proof_text_round_trips() {
    let text = proof_text(&sample_proof());
    let decoded = base64_decode_proof(&text).unwrap();
    assert_eq!(base64_encode_proof(&decoded), text);
}

#[test]
fn vk_text_round_trips() {
    let text = vk_text(&sample_vk());
    let decoded = base64_decode_verifying_key(&text).unwrap();
    assert_eq!(base64_encode_verifying_key(&decoded), text);
}

#[test]
fn proof_decode_rejects_bad_base64() {
    assert!(matches!(
        base64_decode_proof("not/base64!!"),
        Err(DecodeError::InvalidBase64)
    ));
}

#[test]
fn proof_decode_rejects_bad_bytes() {
    // 192 zero bytes are not a valid point encoding.
    let text = base64::encode(vec![0u8; 192]);
    assert!(matches!(
        base64_decode_proof(&text),
        Err(DecodeError::InvalidArtifact)
    ));
}

#[test]
fn proof_decode_rejects_identity_points() {
    let p = Proof::<Bls12> {
        a: G1Affine::identity(),
        b: G2Affine::generator(),
        c: G1Affine::generator(),
    };
    let text = proof_text(&p);
    assert!(matches!(
        base64_decode_proof(&text),
        Err(DecodeError::InvalidArtifact)
    ));
}

#[test]
fn vk_decode_rejects_bad_base64() {
    assert!(matches!(
        base64_decode_verifying_key("@@@@"),
        Err(DecodeError::InvalidBase64)
    ));
}

#[test]
fn vk_decode_rejects_truncated_bytes() {
    let text = base64::encode(vec![1u8, 2, 3]);
    assert!(matches!(
        base64_decode_verifying_key(&text),
        Err(DecodeError::InvalidArtifact)
    ));
}

#[test]
fn encode_matches_backend_serialization() {
    // Our encoder must agree byte for byte with the backend's own writer
    // followed by plain base64.
    let p = sample_proof();
    let text = proof_text(&p);
    let decoded = base64_decode_proof(&text).unwrap();
    let ours = base64_encode_proof(&decoded);
    assert_eq!(ours, text);
    assert_eq!(ours.len(), 256);
}

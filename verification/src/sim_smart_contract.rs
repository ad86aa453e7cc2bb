//! Commit-reveal protocol, as a verifying party would run it.
//!
//! An instance is bound to one verifying key and holds at most one committed
//! item. A Hidden item is created only after the backend verifies a proof
//! against the public total and commitment hash; it becomes Revealed only
//! when presented attribute values hash back to the stored commitment.
//! Verification failure, hash mismatch and out-of-state reveals are reported
//! outcomes, never failures of the instance itself.

use vstd::prelude::*;

use crate::backend::{
    groth16_verdict, prepare_vk, prepared_of, proof_from_bytes, proof_parse, verify_groth16,
    vk_from_bytes, vk_parse,
};
use crate::codec::{b64_decode, b64_decoded, b64_encode, b64_of, sha256_digest, sha256_of,
    DecodeError};
use crate::hidden_stats_circuit::{stats_preimage, stats_preimage_bytes};
use crate::inputs::{prepare_inputs, spec_public_inputs};

verus! {

/// The text a commitment hash travels as: base64 of the SHA-256 digest of
/// the 16-byte attribute preimage.
pub open spec fn stats_hash_text(vit: u32, wis: u32, pow: u32, agi: u32) -> Seq<char> {
    b64_of(sha256_of(stats_preimage(vit, wis, pow, agi)))
}

/// One committed item: either still hidden behind its public values, or
/// revealed as plaintext attributes. There is no path back from Revealed.
#[derive(Clone, Debug, PartialEq, Eq)]
pub enum Item {
    Hidden { total_stats: u32, hash_string: String, proof_string: String },
    Revealed { vit: u32, wis: u32, pow: u32, agi: u32 },
}

/// Outcome of an attempt to create a committed item.
#[derive(Clone, Copy, Debug, PartialEq, Eq, Structural)]
pub enum CreateOutcome {
    /// The proof verified; a Hidden item is now stored.
    Created,
    /// The proof did not verify; nothing changed.
    VerificationFailed,
}

/// Outcome of an attempt to reveal the committed attributes.
#[derive(Clone, Copy, Debug, PartialEq, Eq, Structural)]
pub enum RevealOutcome {
    /// The presented values hash to the stored commitment; the item is now
    /// Revealed.
    Revealed,
    /// The presented values do not hash to the stored commitment; the item
    /// stays Hidden.
    HashMismatch,
    /// No item exists to reveal.
    NoItem,
    /// The item was already revealed; its values are unchanged.
    AlreadyRevealed,
}

/// Which decode failure, if any, an attempt to create an item runs into:
/// the verifying key is decoded first, then the proof, then the hash.
pub open spec fn create_decode_error(
    vk_text: Seq<char>,
    proof_text: Seq<char>,
    hash_text: Seq<char>,
) -> Option<DecodeError> {
    if b64_decoded(vk_text) is None {
        Some(DecodeError::InvalidBase64)
    } else if vk_parse(b64_decoded(vk_text).unwrap()) is None {
        Some(DecodeError::InvalidArtifact)
    } else if b64_decoded(proof_text) is None {
        Some(DecodeError::InvalidBase64)
    } else if proof_parse(b64_decoded(proof_text).unwrap()) is None {
        Some(DecodeError::InvalidArtifact)
    } else if b64_decoded(hash_text) is None {
        Some(DecodeError::InvalidBase64)
    } else {
        None
    }
}

/// The backend's verdict on well-formed create inputs: whether the decoded
/// proof satisfies the relation for the public inputs derived from the total
/// and the decoded commitment hash, under the decoded verifying key.
pub open spec fn create_verdict(
    vk_text: Seq<char>,
    proof_text: Seq<char>,
    hash_text: Seq<char>,
    total: u32,
) -> bool
    recommends
        create_decode_error(vk_text, proof_text, hash_text) is None,
{
    groth16_verdict(
        prepared_of(vk_parse(b64_decoded(vk_text).unwrap()).unwrap()),
        proof_parse(b64_decoded(proof_text).unwrap()).unwrap(),
        spec_public_inputs(total, b64_decoded(hash_text).unwrap()),
    )
}

/// Whether `item` is a Hidden item holding exactly these public values.
pub open spec fn holds_hidden(
    item: Option<Item>,
    total: u32,
    hash_text: Seq<char>,
    proof_text: Seq<char>,
) -> bool {
    item matches Some(Item::Hidden { total_stats, hash_string, proof_string })
        && total_stats == total && hash_string@ == hash_text && proof_string@ == proof_text
}

/// A protocol instance: one verifying key, at most one committed item.
#[derive(Debug)]
pub struct SimSmartContract {
    pub vk_string: String,
    pub item: Option<Item>,
}

impl SimSmartContract {
    /// A fresh instance bound to a base64-encoded verifying key, holding no
    /// item.
    pub fn new(vk_string: String) -> (r: Self)
        ensures
            r.vk_string == vk_string,
            r.item is None,
    {
        Self { vk_string, item: None }
    }

    /// Record the backend's verdict on a proof for these public values: on
    /// success store them as the Hidden item, on failure change nothing.
    ///
    /// A true verdict replaces whatever item was stored, a Revealed one
    /// included: the protocol leaves creating over an existing item
    /// unconstrained, so callers who want prior items immutable must not
    /// hand a verdict in after the first.
    pub fn apply_verification(
        &mut self,
        verified: bool,
        proof_string: &str,
        total_stats: u32,
        hash_string: &str,
    ) -> (r: CreateOutcome)
        ensures
            final(self).vk_string == old(self).vk_string,
            verified ==> r == CreateOutcome::Created && holds_hidden(
                final(self).item,
                total_stats,
                hash_string@,
                proof_string@,
            ),
            !verified ==> r == CreateOutcome::VerificationFailed && final(self).item == old(self).item,
    {
        if verified {
            self.item = Some(
                Item::Hidden {
                    total_stats,
                    hash_string: hash_string.to_owned(),
                    proof_string: proof_string.to_owned(),
                },
            );
            CreateOutcome::Created
        } else {
            CreateOutcome::VerificationFailed
        }
    }

    /// Try to create a committed item from a proof and its public values.
    ///
    /// The stored verifying key, the proof and the commitment hash are
    /// decoded from their text encodings; a malformed one is a DecodeError
    /// and changes nothing. The backend then verifies the proof against the
    /// public inputs derived from the total and the hash: on success the
    /// Hidden item is stored, on failure nothing changes and the failure is
    /// reported as an outcome.
    pub fn new_item(
        &mut self,
        proof_string: &str,
        total_stats: u32,
        hash_string: &str,
    ) -> (r: Result<CreateOutcome, DecodeError>)
        ensures
            final(self).vk_string == old(self).vk_string,
            r matches Err(e) ==> Some(e) == create_decode_error(
                old(self).vk_string@,
                proof_string@,
                hash_string@,
            ) && final(self).item == old(self).item,
            r is Ok ==> create_decode_error(
                old(self).vk_string@,
                proof_string@,
                hash_string@,
            ) is None,
            r matches Ok(outcome) ==> (outcome == CreateOutcome::Created <==> create_verdict(
                old(self).vk_string@,
                proof_string@,
                hash_string@,
                total_stats,
            )),
            r == Ok::<CreateOutcome, DecodeError>(CreateOutcome::Created) ==> holds_hidden(
                final(self).item,
                total_stats,
                hash_string@,
                proof_string@,
            ),
            r == Ok::<CreateOutcome, DecodeError>(CreateOutcome::VerificationFailed) ==> final(self).item == old(self).item,
    {
        let vk_bytes = match b64_decode(self.vk_string.as_str()) {
            Some(b) => b,
            None => {
                return Err(DecodeError::InvalidBase64);
            },
        };
        let vk = match vk_from_bytes(&vk_bytes) {
            Some(vk) => vk,
            None => {
                return Err(DecodeError::InvalidArtifact);
            },
        };
        let proof_bytes = match b64_decode(proof_string) {
            Some(b) => b,
            None => {
                return Err(DecodeError::InvalidBase64);
            },
        };
        let proof = match proof_from_bytes(&proof_bytes) {
            Some(p) => p,
            None => {
                return Err(DecodeError::InvalidArtifact);
            },
        };
        let hash_bytes = match b64_decode(hash_string) {
            Some(b) => b,
            None => {
                return Err(DecodeError::InvalidBase64);
            },
        };
        let pvk = prepare_vk(&vk);
        let inputs = prepare_inputs(total_stats, &hash_bytes);
        let verified = verify_groth16(&pvk, &proof, &inputs);
        Ok(self.apply_verification(verified, proof_string, total_stats, hash_string))
    }

    /// Try to reveal the committed attributes.
    ///
    /// Only a Hidden item can be revealed, and only by the values whose
    /// recomputed commitment hash equals the stored one byte for byte; the
    /// plaintext values then replace the proof and total. A reveal on a
    /// missing or already-revealed item is a reported no-op, and a mismatch
    /// leaves the item Hidden.
    pub fn reveal_stats(&mut self, vit: u32, wis: u32, pow: u32, agi: u32) -> (r: RevealOutcome)
        ensures
            final(self).vk_string == old(self).vk_string,
            old(self).item is None ==> r == RevealOutcome::NoItem && final(self).item == old(self).item,
            old(self).item matches Some(Item::Revealed { .. }) ==> r
                == RevealOutcome::AlreadyRevealed && final(self).item == old(self).item,
            old(self).item matches Some(Item::Hidden { hash_string, .. }) ==> (if hash_string@
                == stats_hash_text(vit, wis, pow, agi) {
                r == RevealOutcome::Revealed && final(self).item == Some(
                    (Item::Revealed { vit, wis, pow, agi }),
                )
            } else {
                r == RevealOutcome::HashMismatch && final(self).item == old(self).item
            }),
    {
        let stored_hash: String = match &self.item {
            None => {
                return RevealOutcome::NoItem;
            },
            Some(Item::Revealed { .. }) => {
                return RevealOutcome::AlreadyRevealed;
            },
            Some(Item::Hidden { hash_string, .. }) => hash_string.clone(),
        };
        let preimage = stats_preimage_bytes(vit, wis, pow, agi);
        let digest = sha256_digest(&preimage);
        let computed = b64_encode(&digest);
        if computed == stored_hash {
            self.item = Some(Item::Revealed { vit, wis, pow, agi });
            RevealOutcome::Revealed
        } else {
            RevealOutcome::HashMismatch
        }
    }
}

} // verus!

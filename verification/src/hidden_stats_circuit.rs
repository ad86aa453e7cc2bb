//! The constraint circuit's data: four secret attributes and the exact
//! byte and bit layout a valid proof must commit to.
//!
//! The relation itself — the sum equality over a public total, and knowledge
//! of a SHA-256 preimage whose digest bits become public inputs — is enforced
//! by the proving backend; the functions here fix the witness values the
//! backend synthesizes from, so that committing and verifying sides agree
//! bit for bit. Each attribute may be unassigned: the circuit's shape must
//! not depend on whether a witness is present, so the bit witnesses then
//! become placeholders rather than disappearing.

use vstd::prelude::*;

use crate::bits::{bytes_bits_le, bytes_to_bits_le, u32_le_bytes, u32_to_le_bytes};

verus! {

/// The 16-byte hash preimage for four attribute values: each value's 4-byte
/// little-endian encoding, concatenated in fixed order.
pub open spec fn stats_preimage(vit: u32, wis: u32, pow: u32, agi: u32) -> Seq<u8> {
    u32_le_bytes(vit) + u32_le_bytes(wis) + u32_le_bytes(pow) + u32_le_bytes(agi)
}

/// Encode four attribute values into the 16-byte hash preimage.
pub fn stats_preimage_bytes(vit: u32, wis: u32, pow: u32, agi: u32) -> (r: Vec<u8>)
    ensures
        r@ == stats_preimage(vit, wis, pow, agi),
        r@.len() == 16,
{
    let mut r = u32_to_le_bytes(vit);
    let mut next = u32_to_le_bytes(wis);
    r.append(&mut next);
    let mut next = u32_to_le_bytes(pow);
    r.append(&mut next);
    let mut next = u32_to_le_bytes(agi);
    r.append(&mut next);
    r
}

/// The four secret attributes, each possibly unassigned. Unassigned values
/// occur when only the circuit's shape is being described, for key
/// generation; a prover supplies all four.
pub struct HiddenStatsCircuit {
    pub vit: Option<u32>,
    pub wis: Option<u32>,
    pub pow: Option<u32>,
    pub agi: Option<u32>,
}

impl HiddenStatsCircuit {
    /// Whether every attribute carries a value.
    pub open spec fn fully_assigned(self) -> bool {
        self.vit is Some && self.wis is Some && self.pow is Some && self.agi is Some
    }

    /// The hash preimage of the assigned attribute values.
    pub open spec fn preimage(self) -> Seq<u8>
        recommends
            self.fully_assigned(),
    {
        stats_preimage(self.vit.unwrap(), self.wis.unwrap(), self.pow.unwrap(), self.agi.unwrap())
    }

    /// The sum of the assigned attribute values, the circuit's public total.
    pub open spec fn spec_total(self) -> int
        recommends
            self.fully_assigned(),
    {
        self.vit.unwrap() + self.wis.unwrap() + self.pow.unwrap() + self.agi.unwrap()
    }

    /// The hash preimage: every attribute little-endian, in fixed order;
    /// absent when any attribute is unassigned.
    pub fn all_stats_bytes(&self) -> (r: Option<Vec<u8>>)
        ensures
            self.fully_assigned() ==> (r matches Some(bytes) && bytes@ == self.preimage()
                && bytes@.len() == 16),
            !self.fully_assigned() ==> r is None,
    {
        match (self.vit, self.wis, self.pow, self.agi) {
            (Some(vit), Some(wis), Some(pow), Some(agi)) => Some(
                stats_preimage_bytes(vit, wis, pow, agi),
            ),
            _ => None,
        }
    }

    /// The values of the 128 preimage bit witnesses, least-significant bit of
    /// each byte first; all placeholders when any attribute is unassigned, so
    /// that the circuit's shape stays the same with and without a witness.
    pub fn preimage_bits(&self) -> (r: Vec<Option<bool>>)
        ensures
            r@.len() == 128,
            self.fully_assigned() ==> forall|i: int|
                0 <= i < 128 ==> r@[i] == Some(bytes_bits_le(self.preimage())[i]),
            !self.fully_assigned() ==> forall|i: int| 0 <= i < 128 ==> r@[i] is None,
    {
        match self.all_stats_bytes() {
            Some(bytes) => {
                let bits = bytes_to_bits_le(&bytes);
                let mut r: Vec<Option<bool>> = Vec::new();
                let n = bits.len();
                for i in 0..n
                    invariant
                        n == bits@.len() == 128,
                        r@.len() == i,
                        forall|k: int| 0 <= k < i ==> r@[k] == Some(bits@[k]),
                {
                    r.push(Some(bits[i]));
                }
                r
            },
            None => {
                let mut r: Vec<Option<bool>> = Vec::new();
                let mut i: usize = 0;
                while i < 128
                    invariant
                        i <= 128,
                        r@.len() == i,
                        forall|k: int| 0 <= k < i ==> r@[k] is None,
                    decreases 128 - i,
                {
                    r.push(None);
                    i = i + 1;
                }
                r
            },
        }
    }

    /// The public total the circuit constrains: the sum of the four
    /// attributes, absent when any is unassigned. The sum is assumed not to
    /// overflow 32 bits.
    pub fn total_stats(&self) -> (r: Option<u32>)
        requires
            self.fully_assigned() ==> self.spec_total() <= u32::MAX,
        ensures
            self.fully_assigned() ==> r == Some(self.spec_total() as u32),
            !self.fully_assigned() ==> r is None,
    {
        match (self.vit, self.wis, self.pow, self.agi) {
            (Some(vit), Some(wis), Some(pow), Some(agi)) => Some(vit + wis + pow + agi),
            _ => None,
        }
    }
}

} // verus!

//! Public input encoder.
//!
//! The verifier supplies the proving backend with field elements: first the
//! public total, then the commitment hash's 256 bits packed into chunks. A
//! chunk holds at most `SCALAR_CAPACITY` bits — the field's bit length minus
//! one, so that a chunk's value can never wrap around the modulus — and each
//! chunk becomes the field element whose little-endian bits it lists, in the
//! same grouping the constraint circuit uses to expose the hash bits.

use vstd::prelude::*;

use crate::backend::{scalar_from_u64, scalar_of_le_bits, scalar_of_u64};
use crate::bits::{bytes_bits_le, bytes_to_bits_le};

verus! {

/// Bits a BLS12-381 scalar can hold losslessly: one less than the field's
/// 255-bit length.
pub const SCALAR_CAPACITY: usize = 254;

/// How many chunks a bit string of length `len` packs into.
pub open spec fn num_bit_chunks(len: int) -> int {
    (len + SCALAR_CAPACITY - 1) / (SCALAR_CAPACITY as int)
}

/// The `i`-th chunk of at most `SCALAR_CAPACITY` bits.
pub open spec fn bit_chunk(bits: Seq<bool>, i: int) -> Seq<bool> {
    if (i + 1) * SCALAR_CAPACITY <= bits.len() {
        bits.subrange(i * SCALAR_CAPACITY, (i + 1) * SCALAR_CAPACITY)
    } else {
        bits.subrange(i * SCALAR_CAPACITY, bits.len() as int)
    }
}

/// The full ordered public-input sequence for a total and a commitment
/// hash: the total itself, then one field element per chunk of the hash's
/// bits.
pub open spec fn spec_public_inputs(total: u32, hash: Seq<u8>) -> Seq<bls12_381::Scalar> {
    Seq::new(
        (1 + num_bit_chunks(8 * (hash.len() as int))) as nat,
        |i: int|
            if i == 0 {
                scalar_of_u64(total as u64)
            } else {
                scalar_of_le_bits(bit_chunk(bytes_bits_le(hash), i - 1))
            },
    )
}

/// Relies on bellman's multipack::compute_multipacking for the BLS12-381
/// scalar field: the bits are chunked by the field's capacity and each chunk
/// becomes the field element whose little-endian bits it lists.
#[verifier::external_body]
pub(crate) fn pack_bits_into_scalars(bits: &Vec<bool>) -> (r: Vec<bls12_381::Scalar>)
    ensures
        r@.len() == num_bit_chunks(bits@.len() as int),
        forall|i: int| 0 <= i < r@.len() ==> r@[i] == scalar_of_le_bits(
            #[trigger] bit_chunk(bits@, i),
        ),
{
    bellman::gadgets::multipack::compute_multipacking(bits)
}

/// The ordered public inputs for verification: the total, then the hash bits
/// (least-significant bit of each byte first) packed into field elements.
pub fn prepare_inputs(total_stats: u32, hash: &Vec<u8>) -> (r: Vec<bls12_381::Scalar>)
    ensures
        r@ == spec_public_inputs(total_stats, hash@),
{
    let total_scalar = scalar_from_u64(total_stats as u64);
    let bits = bytes_to_bits_le(hash);
    let mut packed = pack_bits_into_scalars(&bits);
    let mut r: Vec<bls12_381::Scalar> = Vec::new();
    r.push(total_scalar);
    r.append(&mut packed);
    proof {
        assert(r@ =~= spec_public_inputs(total_stats, hash@));
    }
    r
}

} // verus!

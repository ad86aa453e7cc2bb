//! Bit- and byte-level layout shared by the preimage encoder, the constraint
//! circuit and the public-input encoder.
//!
//! Every multi-byte value in the protocol is little-endian, and the bits of a
//! byte are always taken least-significant first. The hash primitive inside
//! the circuit expects most-significant-bit-first groups, which is why each
//! 8-bit group can be reversed with `flip_endianness`.

use vstd::prelude::*;

verus! {

/// The four bytes of a 32-bit value, least significant first.
pub open spec fn u32_le_bytes(x: u32) -> Seq<u8> {
    seq![
        (x & 0xff) as u8,
        ((x >> 8) & 0xff) as u8,
        ((x >> 16) & 0xff) as u8,
        ((x >> 24) & 0xff) as u8,
    ]
}

/// Little-endian encode a 32-bit value.
pub fn u32_to_le_bytes(x: u32) -> (r: Vec<u8>)
    ensures
        r@ == u32_le_bytes(x),
        r@.len() == 4,
{
    proof {
        assert((x & 0xff) < 256 && ((x >> 8) & 0xff) < 256 && ((x >> 16) & 0xff) < 256 && ((x
            >> 24) & 0xff) < 256) by (bit_vector);
    }
    let mut r: Vec<u8> = Vec::new();
    r.push((x & 0xff) as u8);
    r.push(((x >> 8) & 0xff) as u8);
    r.push(((x >> 16) & 0xff) as u8);
    r.push(((x >> 24) & 0xff) as u8);
    proof {
        assert(r@ =~= u32_le_bytes(x));
    }
    r
}

/// The bits of one byte, least significant first.
pub open spec fn byte_bits_le(b: u8) -> Seq<bool> {
    Seq::new(8, |i: int| (b >> (i as u8)) & 1 == 1)
}

/// The bits of a byte string: each byte contributes its 8 bits, least
/// significant first, in byte order.
pub open spec fn bytes_bits_le(bs: Seq<u8>) -> Seq<bool> {
    Seq::new(bs.len() * 8, |i: int| byte_bits_le(bs[i / 8])[i % 8])
}

/// Each aligned group of 8 bits reversed in place. Only meaningful for bit
/// strings made of whole bytes.
pub open spec fn flip_bit_groups(bits: Seq<bool>) -> Seq<bool>
    recommends
        bits.len() % 8 == 0,
{
    Seq::new(bits.len(), |i: int| bits[8 * (i / 8) + (7 - i % 8)])
}

/// Expand a byte string into its bits, least-significant bit of each byte
/// first; the layout used both to witness the preimage in the circuit and to
/// pack the commitment hash into public inputs.
pub fn bytes_to_bits_le(bytes: &Vec<u8>) -> (r: Vec<bool>)
    ensures
        r@ == bytes_bits_le(bytes@),
{
    let mut r: Vec<bool> = Vec::new();
    let n = bytes.len();
    for i in 0..n
        invariant
            n == bytes@.len(),
            r@.len() == i * 8,
            forall|k: int| 0 <= k < i * 8 ==> r@[k] == bytes_bits_le(bytes@)[k],
    {
        let b = bytes[i];
        let mut j: usize = 0;
        while j < 8
            invariant
                j <= 8,
                b == bytes@[i as int],
                i < n == bytes@.len(),
                r@.len() == i * 8 + j,
                forall|k: int| 0 <= k < r@.len() ==> r@[k] == bytes_bits_le(bytes@)[k],
            decreases 8 - j,
        {
            let bit = (b >> (j as u8)) & 1 == 1;
            proof {
                let k = i * 8 + j;
                assert(bytes_bits_le(bytes@)[k as int] == byte_bits_le(bytes@[k as int / 8])[k as int % 8]);
                assert(k as int / 8 == i as int && k as int % 8 == j as int) by (nonlinear_arith)
                    requires
                        k == i * 8 + j,
                        0 <= j < 8,
                        0 <= i,
                ;
            }
            r.push(bit);
            j = j + 1;
        }
    }
    proof {
        assert(r@ =~= bytes_bits_le(bytes@));
    }
    r
}

/// Reverse each aligned 8-bit group of a bit string, turning
/// least-significant-first byte groups into most-significant-first ones and
/// back; its own inverse.
pub fn flip_endianness(bits: &Vec<bool>) -> (r: Vec<bool>)
    requires
        bits@.len() % 8 == 0,
    ensures
        r@ == flip_bit_groups(bits@),
{
    let mut r: Vec<bool> = Vec::new();
    let n = bits.len();
    let mut i: usize = 0;
    while i < n
        invariant
            n == bits@.len(),
            n % 8 == 0,
            i % 8 == 0,
            i <= n,
            r@.len() == i,
            forall|k: int| 0 <= k < i ==> r@[k] == flip_bit_groups(bits@)[k],
        decreases n - i,
    {
        let mut j: usize = 0;
        while j < 8
            invariant
                j <= 8,
                i % 8 == 0,
                i + 8 <= n == bits@.len(),
                r@.len() == i + j,
                forall|k: int| 0 <= k < r@.len() ==> r@[k] == flip_bit_groups(bits@)[k],
            decreases 8 - j,
        {
            let bit = bits[i + (7 - j)];
            proof {
                let k = i + j;
                assert(8 * (k as int / 8) == i as int && k as int % 8 == j as int) by (nonlinear_arith)
                    requires
                        k == i + j,
                        0 <= j < 8,
                        0 <= i,
                        i % 8 == 0,
                ;
            }
            r.push(bit);
            j = j + 1;
        }
        i = i + 8;
    }
    proof {
        assert(r@ =~= flip_bit_groups(bits@));
    }
    r
}

} // verus!

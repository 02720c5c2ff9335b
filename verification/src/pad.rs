//! Spreading a key over one block: the first step of both hashing passes.

use vstd::prelude::*;

verus! {

/// Number of bytes in the block that a key is spread over.
pub const BLOCK: usize = 64;

/// Fill byte of the block that opens the inner pass.
pub const IPAD: u8 = 0x36;

/// Fill byte of the block that opens the outer pass.
pub const OPAD: u8 = 0x5c;

/// The key spread over one block: `BLOCK` bytes, each the fill byte, xored
/// with the key's byte at that position where the key has one.
pub open spec fn xor_pad(key: Seq<u8>, fill: u8) -> Seq<u8>
    recommends
        key.len() <= BLOCK,
{
    Seq::new(
        BLOCK as nat,
        |i: int|
            if i < key.len() {
                key[i] ^ fill
            } else {
                fill
            },
    )
}

/// `key` followed by as many zero bytes as it takes to fill a block.
pub open spec fn zero_extended(key: Seq<u8>) -> Seq<u8>
    recommends
        key.len() <= BLOCK,
{
    key + Seq::new((BLOCK - key.len()) as nat, |i: int| 0u8)
}

/// Builds the input of one hashing pass: the key spread over a block filled
/// with `fill`, followed by `tail`.
///
/// The key must fit in the block.
pub fn keyed_message(key: &[u8], fill: u8, tail: &[u8]) -> (buf: Vec<u8>)
    requires
        key@.len() <= BLOCK,
    ensures
        buf@ == xor_pad(key@, fill) + tail@,
{
    let mut buf: Vec<u8> = vec![fill; BLOCK];
    for i in 0..key.len()
        invariant
            key@.len() <= BLOCK,
            buf@.len() == BLOCK,
            forall|j: int| 0 <= j < i ==> buf@[j] == key@[j] ^ fill,
            forall|j: int| i <= j < BLOCK ==> buf@[j] == fill,
    {
        let byte: u8 = key[i];
        assert(fill ^ byte == byte ^ fill) by (bit_vector);
        buf[i] ^= byte;
    }
    buf.extend_from_slice(tail);
    buf
}

/// A key shorter than a block is spread as if zero bytes followed it up to
/// the end of the block.
pub proof fn lemma_short_key_is_zero_padded(key: Seq<u8>, fill: u8)
    requires
        key.len() <= BLOCK,
    ensures
        zero_extended(key).len() == BLOCK,
        xor_pad(key, fill) == xor_pad(zero_extended(key), fill),
{
    let long = zero_extended(key);
    assert forall|i: int| 0 <= i < BLOCK implies xor_pad(key, fill)[i] == xor_pad(long, fill)[i] by {
        if i >= key.len() {
            assert(long[i] == 0u8);
            assert(0u8 ^ fill == fill) by (bit_vector);
        }
    }
    assert(xor_pad(key, fill) =~= xor_pad(long, fill));
}

/// A key of a whole block is spread byte for byte, nothing of it cut off or
/// folded together: two such keys that are spread alike are the same key.
pub proof fn lemma_full_keys_stay_apart(k1: Seq<u8>, k2: Seq<u8>, fill: u8)
    requires
        k1.len() == BLOCK,
        k2.len() == BLOCK,
        xor_pad(k1, fill) == xor_pad(k2, fill),
    ensures
        k1 == k2,
{
    assert forall|i: int| 0 <= i < BLOCK implies k1[i] == k2[i] by {
        let x = k1[i];
        let y = k2[i];
        assert(xor_pad(k1, fill)[i] == x ^ fill);
        assert(xor_pad(k2, fill)[i] == y ^ fill);
        assert(x ^ fill == y ^ fill ==> x == y) by (bit_vector);
    }
    assert(k1 =~= k2);
}

} // verus!
